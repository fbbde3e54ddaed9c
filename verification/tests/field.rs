use kernel::field::{Field, HasField};

struct Work;

struct Node {
    _a: u32,
    _w: Work,
}

impl Field<Node> for Work {}

impl HasField<Node, Work> for Node {
    const FIELD_OFFSET: usize = 8;
}

#[test]
fn field_and_container_are_inverse() {
    let base = 0x1000usize;
    let off = <Node as HasField<Node, Work>>::FIELD_OFFSET;
    let f = <Node as HasField<Node, Work>>::raw_get_field(base);
    assert_eq!(0x1008, f);
    assert_eq!(base + off, f);
    assert_eq!(base, <Node as HasField<Node, Work>>::field_container_of(f));
}
