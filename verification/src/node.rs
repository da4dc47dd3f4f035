//! A point in three dimensions with a sum and a product.

use vstd::prelude::*;

verus! {

#[derive(Debug, Clone, Copy, PartialEq, Eq, Structural)]
pub struct Node {
    pub x: i32,
    pub y: i32,
    pub z: i32,
}

impl Node {
    pub fn new(x: i32, y: i32, z: i32) -> (node: Node)
        ensures
            node == (Node { x, y, z }),
    {
        Node { x, y, z }
    }

    /// The origin.
    pub fn new_default() -> (node: Node)
        ensures
            node == (Node { x: 0, y: 0, z: 0 }),
    {
        Node { x: 0, y: 0, z: 0 }
    }

    /// The sum of the coordinates.
    pub fn calculate_sum(&self) -> (sum: i32)
        requires
            i32::MIN <= self.x + self.y <= i32::MAX,
            i32::MIN <= self.x + self.y + self.z <= i32::MAX,
        ensures
            sum == self.x + self.y + self.z,
    {
        self.x + self.y + self.z
    }

    /// The product of the coordinates.
    pub fn calculate_product(&self) -> (product: i32)
        requires
            i32::MIN <= self.x * self.y <= i32::MAX,
            i32::MIN <= self.x * self.y * self.z <= i32::MAX,
        ensures
            product == self.x * self.y * self.z,
    {
        self.x * self.y * self.z
    }
}

} // verus!
