use webserver::config::{ServerConfig, ServerType};
use webserver::handler::{compose_response, get_status_file_name, handle_request, usize_to_decimal};
use webserver::pool::{Job, WorkerPool};
use webserver::server::run;

#[test]
fn root_get_is_classified_as_ok() {
    let line = String::from("GET / HTTP/1.1");
    let (status, file) = get_status_file_name(&line);
    assert_eq!(status, "HTTP/1.1 200 OK");
    assert_eq!(file, "index.html");
}

#[test]
fn every_other_line_is_classified_as_not_found() {
    for line in ["GET /missing HTTP/1.1", "POST / HTTP/1.1", "", "GET / HTTP/1.0"] {
        let (status, file) = get_status_file_name(&String::from(line));
        assert_eq!(status, "HTTP/1.1 404 NOT FOUND");
        assert_eq!(file, "404.html");
    }
}

#[test]
fn decimal_rendering_matches_known_values() {
    assert_eq!(usize_to_decimal(0), "0");
    assert_eq!(usize_to_decimal(7), "7");
    assert_eq!(usize_to_decimal(10), "10");
    assert_eq!(usize_to_decimal(90210), "90210");
    assert_eq!(usize_to_decimal(usize::MAX), usize::MAX.to_string());
}

#[test]
fn response_is_framed_with_byte_length() {
    let status = String::from("HTTP/1.1 200 OK");
    let body = String::from("<html>hello</html>");
    let response = compose_response(&status, &body);
    assert_eq!(
        response,
        "HTTP/1.1 200 OK\r\nContent-Length: 18\r\n\r\n<html>hello</html>"
    );
}

#[test]
fn content_length_counts_bytes_not_characters() {
    let status = String::from("HTTP/1.1 200 OK");
    let body = String::from("héllo");
    let response = compose_response(&status, &body);
    assert_eq!(
        response,
        "HTTP/1.1 200 OK\r\nContent-Length: 6\r\n\r\nhéllo"
    );
}

#[test]
fn root_get_receives_the_index_page() {
    let index = String::from("<html>index</html>");
    let not_found = String::from("<html>404</html>");
    let response = handle_request(&String::from("GET / HTTP/1.1"), &index, &not_found);
    assert_eq!(
        response,
        "HTTP/1.1 200 OK\r\nContent-Length: 18\r\n\r\n<html>index</html>"
    );
}

#[test]
fn unknown_request_receives_the_not_found_page() {
    let index = String::from("<html>index</html>");
    let not_found = String::from("<html>404</html>");
    let response = handle_request(&String::from("GET /nope HTTP/1.1"), &index, &not_found);
    assert_eq!(
        response,
        "HTTP/1.1 404 NOT FOUND\r\nContent-Length: 16\r\n\r\n<html>404</html>"
    );
}

#[test]
fn pool_of_zero_workers_is_refused() {
    assert!(WorkerPool::try_new(0).is_none());
}

#[test]
fn pool_of_k_workers_has_exactly_k_workers() {
    for k in 1..6 {
        let pool = WorkerPool::try_new(k).unwrap();
        assert_eq!(pool.worker_count(), k);
    }
}

#[test]
fn jobs_are_delivered_exactly_once_and_in_fifo_order() {
    let mut pool = WorkerPool::new(3);
    for id in 0..7u64 {
        pool.execute(Job::new(id, format!("request {}", id)));
    }
    let mut log: Vec<u64> = Vec::new();
    let mut worker = 0;
    while let Some(job) = pool.take_next(worker) {
        log.push(job.id);
        worker = (worker + 1) % 3;
    }
    assert_eq!(log, vec![0, 1, 2, 3, 4, 5, 6]);
    assert_eq!(pool.queued_count(), 0);
}

#[test]
fn execute_never_rejects_work() {
    let mut pool = WorkerPool::new(1);
    for id in 0..1000u64 {
        pool.execute(Job::new(id, String::new()));
    }
    assert_eq!(pool.queued_count(), 1000);
}

#[test]
fn config_maps_the_flag_to_the_matching_mode() {
    let multi = ServerConfig::new(String::from("127.0.0.1:7878"), true, 8);
    assert_eq!(multi.get_server_type(), ServerType::MultiThreaded);
    assert_eq!(multi.get_server_address(), "127.0.0.1:7878");
    assert_eq!(multi.get_number_threads(), 8);

    let single = ServerConfig::new(String::from("127.0.0.1:7878"), false, 0);
    assert_eq!(single.get_server_type(), ServerType::SingleThreaded);
}

#[test]
fn both_modes_serve_identical_responses() {
    let requests = vec![
        String::from("GET / HTTP/1.1"),
        String::from("GET /else HTTP/1.1"),
        String::from("GET / HTTP/1.1"),
        String::from(""),
    ];
    let index = String::from("<html>index</html>");
    let not_found = String::from("<html>404</html>");

    let single = ServerConfig::new(String::from("127.0.0.1:7878"), false, 0);
    let multi = ServerConfig::new(String::from("127.0.0.1:7878"), true, 2);

    let responses_single = run(&single, &requests, &index, &not_found);
    let responses_multi = run(&multi, &requests, &index, &not_found);

    assert_eq!(responses_single, responses_multi);
    assert_eq!(responses_single.len(), 4);
    assert!(responses_single[0].starts_with("HTTP/1.1 200 OK"));
    assert!(responses_single[1].starts_with("HTTP/1.1 404 NOT FOUND"));
}
