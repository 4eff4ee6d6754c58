use std::sync::Arc;

use event_loop::state::State;

#[derive(Debug)]
struct Counters {
    hits: u32,
}

struct Holder {
    state: Arc<Counters>,
}

impl State for Holder {
    type State = Counters;

    fn state(&self) -> &Arc<Counters> {
        &self.state
    }
}

#[test]
fn state_is_shared_through_arc() {
    let h = Holder { state: Arc::new(Counters { hits: 3 }) };
    let shared = Arc::clone(h.state());
    assert_eq!(shared.hits, 3);
    assert_eq!(Arc::strong_count(h.state()), 2);
}
