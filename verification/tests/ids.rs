use rhenite::IdGenerator;

#[test]
fn ids_are_distinct() {
    let mut gen = IdGenerator::new();
    let mut seen: Vec<u64> = Vec::new();
    for _ in 0..100 {
        let id = gen.next_id();
        assert!(!seen.contains(&id));
        seen.push(id);
    }
}

#[test]
fn ids_increase_monotonically() {
    let mut gen = IdGenerator::new();
    let mut last = gen.next_id();
    for _ in 0..100 {
        let next = gen.next_id();
        assert!(next > last);
        last = next;
    }
}

#[test]
fn fresh_generator_has_capacity() {
    let gen = IdGenerator::new();
    assert!(gen.has_capacity());
}
