//! The serving loop over a batch of already-read request lines.
//!
//! The real acceptor blocks on a socket and hands each connection either to
//! the request handler inline (single-threaded mode) or to the worker pool
//! as a job (multi-threaded mode). The socket work lives outside the
//! library; here the acceptor's decisions run over a sequence of request
//! lines, through the same two paths, and the contract pins the responses
//! down: one response per request, each determined by the request line and
//! the two pages alone. That the contract never mentions the mode is the
//! mode-equivalence law, stated separately as [`lemma_mode_equivalence`].

use vstd::prelude::*;
use crate::config::{ServerConfig, ServerType};
use crate::handler::{byte_len, handle_request, spec_response};
use crate::pool::{Job, WorkerPool};

verus! {

/// Serve every request inline, one at a time, on the caller's own thread.
#[verifier::loop_isolation(false)]
pub fn serve_requests_single(
    requests: &Vec<String>,
    index_page: &String,
    not_found_page: &String,
) -> (responses: Vec<String>)
    requires
        byte_len(index_page@) <= usize::MAX,
        byte_len(not_found_page@) <= usize::MAX,
    ensures
        responses@.len() == requests@.len(),
        forall|i: int|
            0 <= i < requests@.len() ==> (#[trigger] responses@[i])@ == spec_response(
                requests@[i]@,
                index_page@,
                not_found_page@,
            ),
{
    let mut responses: Vec<String> = Vec::new();
    let mut i: usize = 0;
    while i < requests.len()
        invariant
            i <= requests@.len(),
            responses@.len() == i,
            forall|j: int|
                0 <= j < i ==> (#[trigger] responses@[j])@ == spec_response(
                    requests@[j]@,
                    index_page@,
                    not_found_page@,
                ),
        decreases requests@.len() - i,
    {
        let response = handle_request(&requests[i], index_page, not_found_page);
        responses.push(response);
        i = i + 1;
    }
    responses
}

/// Serve every request through the worker pool: wrap each request as a job,
/// submit them all, then let the workers drain the queue in turn.
#[verifier::loop_isolation(false)]
pub fn serve_requests_pooled(
    size: usize,
    requests: &Vec<String>,
    index_page: &String,
    not_found_page: &String,
) -> (responses: Vec<String>)
    requires
        size >= 1,
        byte_len(index_page@) <= usize::MAX,
        byte_len(not_found_page@) <= usize::MAX,
    ensures
        responses@.len() == requests@.len(),
        forall|i: int|
            0 <= i < requests@.len() ==> (#[trigger] responses@[i])@ == spec_response(
                requests@[i]@,
                index_page@,
                not_found_page@,
            ),
{
    let mut pool = WorkerPool::new(size);
    let mut i: usize = 0;
    while i < requests.len()
        invariant
            i <= requests@.len(),
            pool.wf(),
            pool.spec_workers().len() == size,
            pool.spec_delivered().len() == 0,
            pool.spec_queue().len() == i,
            forall|j: int|
                0 <= j < i ==> (#[trigger] pool.spec_queue()[j]).request_line@ == requests@[j]@,
        decreases requests@.len() - i,
    {
        pool.execute(Job::new(i as u64, requests[i].clone()));
        i = i + 1;
    }

    let mut responses: Vec<String> = Vec::new();
    let mut worker_id: usize = 0;
    while responses.len() < requests.len()
        invariant
            pool.wf(),
            pool.spec_workers().len() == size,
            worker_id < size,
            responses@.len() + pool.spec_queue().len() == requests@.len(),
            forall|j: int|
                0 <= j < pool.spec_queue().len() ==> (#[trigger] pool.spec_queue()[j]).request_line@
                    == requests@[responses@.len() + j]@,
            forall|j: int|
                0 <= j < responses@.len() ==> (#[trigger] responses@[j])@ == spec_response(
                    requests@[j]@,
                    index_page@,
                    not_found_page@,
                ),
        decreases requests@.len() - responses@.len(),
    {
        let next = pool.take_next(worker_id);
        match next {
            Some(job) => {
                let response = handle_request(&job.request_line, index_page, not_found_page);
                responses.push(response);
            },
            None => {
                // The queue cannot be empty here: it still holds one job
                // for every response not yet produced.
                proof {
                    assert(false);
                }
            },
        }
        worker_id = if worker_id + 1 == size {
            0
        } else {
            worker_id + 1
        };
    }
    responses
}

/// Serve a batch of requests in the mode the configuration asks for. The
/// responses are fixed by the request lines and the two pages; the mode
/// decides only how the work is scheduled.
pub fn run(
    config: &ServerConfig,
    requests: &Vec<String>,
    index_page: &String,
    not_found_page: &String,
) -> (responses: Vec<String>)
    requires
        config.wf(),
        byte_len(index_page@) <= usize::MAX,
        byte_len(not_found_page@) <= usize::MAX,
    ensures
        responses@.len() == requests@.len(),
        forall|i: int|
            0 <= i < requests@.len() ==> (#[trigger] responses@[i])@ == spec_response(
                requests@[i]@,
                index_page@,
                not_found_page@,
            ),
{
    match config.get_server_type() {
        ServerType::SingleThreaded => serve_requests_single(requests, index_page, not_found_page),
        ServerType::MultiThreaded => serve_requests_pooled(
            config.get_number_threads(),
            requests,
            index_page,
            not_found_page,
        ),
    }
}

/// Mode equivalence: two response batches that each answer the same
/// requests over the same pages — as [`run`] guarantees for any
/// configuration, single- or multi-threaded — are pointwise identical.
/// Only scheduling differs between the modes, never the responses.
pub proof fn lemma_mode_equivalence(
    responses_a: Seq<String>,
    responses_b: Seq<String>,
    requests: Seq<String>,
    index_page: Seq<char>,
    not_found_page: Seq<char>,
)
    requires
        responses_a.len() == requests.len(),
        responses_b.len() == requests.len(),
        forall|i: int|
            0 <= i < requests.len() ==> (#[trigger] responses_a[i])@ == spec_response(
                requests[i]@,
                index_page,
                not_found_page,
            ),
        forall|i: int|
            0 <= i < requests.len() ==> (#[trigger] responses_b[i])@ == spec_response(
                requests[i]@,
                index_page,
                not_found_page,
            ),
    ensures
        responses_a.map_values(|s: String| s@) == responses_b.map_values(|s: String| s@),
{
    assert(responses_a.map_values(|s: String| s@) =~= responses_b.map_values(|s: String| s@));
}

} // verus!
