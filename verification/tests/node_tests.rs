use webserver::node::Node;

#[test]
fn test_new() {
    let node = Node::new(1, 2, 3);
    assert_eq!(node.x, 1);
    assert_eq!(node.y, 2);
    assert_eq!(node.z, 3);
}

#[test]
fn test_new_default() {
    let node = Node::new_default();
    assert_eq!(node.x, 0);
    assert_eq!(node.y, 0);
    assert_eq!(node.x, 0);
}

#[test]
fn test_product() {
    let n = Node::new(1, 2, 3);
    let product = n.calculate_product();
    assert_eq!(product, 6);
}

#[test]
fn test_sum() {
    let n = Node::new(1, 2, 3);
    let sum = n.calculate_sum();
    assert_eq!(sum, 6)
}

#[test]
fn sum_and_product_handle_negative_coordinates() {
    let n = Node::new(-2, 3, -4);
    assert_eq!(n.calculate_sum(), -3);
    assert_eq!(n.calculate_product(), 24);
}
