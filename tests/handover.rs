use arkhe::{compose_handovers, Handover, Mapper, Node, PreservationProtocol, Scalar};

fn square() -> Handover<i64, i64, impl Fn(&i64) -> i64> {
    Handover::new("square".to_string(), PreservationProtocol::Conservative, |x: &i64| x * x)
}

fn stringify() -> Handover<i64, String, impl Fn(&i64) -> String> {
    Handover::new("stringify".to_string(), PreservationProtocol::Conservative, |x: &i64| x.to_string())
}

#[test]
fn execute_applies_mapper_to_current_state() {
    let n = Node::new("n1".to_string(), "integers", 7i64);
    let h = square();
    assert_eq!(h.execute(&n), (h.mapper)(&n.current_state));
    assert_eq!(h.execute(&n), 49);
    assert_eq!(h.mapper.apply(&7), 49);
}

#[test]
fn execute_leaves_node_and_handover_unchanged() {
    let n = Node::new("n1".to_string(), "integers", -4i64);
    let h = square();
    assert_eq!(h.execute(&n), 16);
    assert_eq!(h.execute(&n), 16);
    assert_eq!(n.current_state, -4);
    assert_eq!(h.id, "square");
}

#[test]
fn composition_is_associative_in_output() {
    let inc = || Handover::new("inc".to_string(), PreservationProtocol::Creative, |x: &i64| x + 1);
    let dbl = || Handover::new("dbl".to_string(), PreservationProtocol::Destructive, |x: &i64| x * 2);
    let neg = || Handover::new("neg".to_string(), PreservationProtocol::Conservative, |x: &i64| -x);
    let left = compose_handovers(compose_handovers(inc(), dbl()), neg());
    let right = compose_handovers(inc(), compose_handovers(dbl(), neg()));
    for v in [-3i64, 0, 5, 100] {
        let n = Node::new("n".to_string(), "integers", v);
        assert_eq!(left.execute(&n), right.execute(&n));
        assert_eq!(left.execute(&n), -((v + 1) * 2));
    }
    assert_eq!(left.id, "inc_dbl_neg");
    assert_eq!(right.id, "inc_dbl_neg");
}

#[test]
fn composition_runs_first_then_second() {
    let add = Handover::new("add".to_string(), PreservationProtocol::Conservative, |x: &i64| x + 10);
    let mul = Handover::new("mul".to_string(), PreservationProtocol::Conservative, |x: &i64| x * 3);
    let h = compose_handovers(add, mul);
    let n = Node::new("n".to_string(), "integers", 1i64);
    assert_eq!(h.execute(&n), 33);
}

#[test]
fn composition_is_always_transmutative() {
    let h = compose_handovers(square(), stringify());
    assert_eq!(h.protocol, PreservationProtocol::Transmutative);
    let a = Handover::new("a".to_string(), PreservationProtocol::Destructive, |x: &i64| x - 1);
    let b = Handover::new("b".to_string(), PreservationProtocol::Creative, |x: &i64| x + 1);
    assert_eq!(compose_handovers(a, b).protocol, PreservationProtocol::Transmutative);
}

#[test]
fn composed_id_joins_ids_with_underscore() {
    let d = Handover::new("double".to_string(), PreservationProtocol::Conservative, |x: &i64| x * 2);
    let h = compose_handovers(d, stringify());
    assert_eq!(h.id, "double_stringify");
    let e = Handover::new(String::new(), PreservationProtocol::Conservative, |x: &i64| *x);
    let f = Handover::new(String::new(), PreservationProtocol::Conservative, |x: &i64| *x);
    assert_eq!(compose_handovers(e, f).id, "_");
}

#[test]
fn composition_keeps_default_fidelity() {
    let mut a = square();
    let mut b = square();
    a.fidelity = Scalar::from_millionths(900_000);
    b.fidelity = Scalar::from_millionths(900_000);
    let h = compose_handovers(a, b);
    assert_eq!(h.fidelity, Scalar::one());
    assert_eq!(h.execute(&Node::new("n".to_string(), "integers", 3i64)), 81);
}

#[test]
fn fresh_node_and_handover_have_full_measures() {
    let n = Node::new("n1".to_string(), "anything", vec![1u8, 2, 3]);
    assert_eq!(n.local_coherence, Scalar::one());
    assert_eq!(n.local_coherence.millionths, 1_000_000);
    assert_eq!(n.id, "n1");
    assert_eq!(n.state_space, "anything");
    assert_eq!(n.current_state, vec![1u8, 2, 3]);
    let h = Handover::new("h".to_string(), PreservationProtocol::Destructive, |x: &Vec<u8>| x.len());
    assert_eq!(h.fidelity, Scalar::one());
    assert_eq!(h.protocol, PreservationProtocol::Destructive);
    assert_eq!(h.id, "h");
    assert_eq!(h.execute(&n), 3);
}

#[test]
fn end_to_end_square_then_stringify() {
    let n1 = Node::new("n1".to_string(), "integers", 3i64);
    let h3 = compose_handovers(square(), stringify());
    assert_eq!(h3.execute(&n1), "9");
    assert_eq!(h3.id, "square_stringify");
}
