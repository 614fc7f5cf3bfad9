//! What the reported updates say over a whole run: each button's events
//! alternate between down and up, starting with down, and agree with the
//! button's state.
use vstd::prelude::*;

use crate::protocol::ClientUpdate;
use crate::state::{
    button_updates, classic_next_view, classic_updates, initial_view, option_seq, transition,
    with_buttons, with_joystick, ButtonState, ClassicControls, ControllerView, JoystickState,
};

verus! {

/// One call that changes a [`crate::ControllerState`]: `update_buttons`,
/// `build_classic_control_updates` with the decoded reading, or
/// `set_joystick`.
pub enum ControllerStep {
    Buttons { a: ButtonState, b: ButtonState, menu: ButtonState },
    Reading { controls: ClassicControls },
    Joystick { stick: JoystickState },
}

/// The state after a step and the updates the step reports, as the
/// contracts of the three calls give them.
#[verifier::opaque]
pub open spec fn apply_step(m: ControllerView, step: ControllerStep) -> (ControllerView, Seq<
    ClientUpdate,
>) {
    match step {
        ControllerStep::Buttons { a, b, menu } => (
            with_buttons(m, a, b, menu),
            button_updates(m, a, b, menu),
        ),
        ControllerStep::Reading { controls } => (
            classic_next_view(m, controls),
            classic_updates(m, controls),
        ),
        ControllerStep::Joystick { stick } => (
            with_joystick(m, stick),
            seq![ClientUpdate::JoystickMoved { stick }],
        ),
    }
}

/// The state after a run of steps from `m`, and all updates reported on the
/// way, in order.
pub open spec fn run_steps(m: ControllerView, steps: Seq<ControllerStep>) -> (ControllerView, Seq<
    ClientUpdate,
>)
    decreases steps.len(),
{
    if steps.len() == 0 {
        (m, seq![])
    } else {
        let (before, history) = run_steps(m, steps.drop_last());
        let (after, reported) = apply_step(before, steps.last());
        (after, history + reported)
    }
}

/// Whether an update is one of a button's two events.
pub open spec fn is_event_of(down: ClientUpdate, up: ClientUpdate) -> spec_fn(ClientUpdate) -> bool {
    |u: ClientUpdate| u == down || u == up
}

/// A button's events in a history of updates, in order.
pub open spec fn button_events(
    history: Seq<ClientUpdate>,
    down: ClientUpdate,
    up: ClientUpdate,
) -> Seq<ClientUpdate> {
    history.filter(is_event_of(down, up))
}

/// A button's events alternate, starting with down, and the button is held
/// exactly when its last event is down.
#[verifier::opaque]
pub open spec fn button_history_agrees(
    state: ButtonState,
    events: Seq<ClientUpdate>,
    down: ClientUpdate,
    up: ClientUpdate,
) -> bool {
    &&& forall|i: int|
        0 <= i < events.len() ==> #[trigger] events[i] == (if i % 2 == 0 {
            down
        } else {
            up
        })
    &&& (state == ButtonState::DOWN) == (events.len() % 2 == 1)
}

/// The history agrees with the state for all three buttons.
pub open spec fn history_agrees(m: ControllerView, history: Seq<ClientUpdate>) -> bool {
    &&& button_history_agrees(
        m.button_a,
        button_events(history, ClientUpdate::ButtonADown, ClientUpdate::ButtonAUp),
        ClientUpdate::ButtonADown,
        ClientUpdate::ButtonAUp,
    )
    &&& button_history_agrees(
        m.button_b,
        button_events(history, ClientUpdate::ButtonBDown, ClientUpdate::ButtonBUp),
        ClientUpdate::ButtonBDown,
        ClientUpdate::ButtonBUp,
    )
    &&& button_history_agrees(
        m.button_menu,
        button_events(history, ClientUpdate::ButtonMenuDown, ClientUpdate::ButtonMenuUp),
        ClientUpdate::ButtonMenuDown,
        ClientUpdate::ButtonMenuUp,
    )
}

proof fn lemma_filter_singleton(x: ClientUpdate, p: spec_fn(ClientUpdate) -> bool)
    ensures
        seq![x].filter(p) == (if p(x) {
            seq![x]
        } else {
            seq![]
        }),
{
    reveal_with_fuel(Seq::filter, 2);
    assert(seq![x].drop_last() =~= Seq::<ClientUpdate>::empty());
    assert(seq![x].filter(p) =~= (if p(x) {
        seq![x]
    } else {
        seq![]
    }));
}

proof fn lemma_filter_empty(p: spec_fn(ClientUpdate) -> bool)
    ensures
        Seq::<ClientUpdate>::empty().filter(p) == Seq::<ClientUpdate>::empty(),
{
    reveal_with_fuel(Seq::filter, 1);
}

proof fn lemma_option_seq_filter(o: Option<ClientUpdate>, p: spec_fn(ClientUpdate) -> bool)
    ensures
        option_seq(o).filter(p) == (if o matches Some(u) && p(u) {
            option_seq(o)
        } else {
            seq![]
        }),
{
    match o {
        Some(u) => lemma_filter_singleton(u, p),
        None => {
            lemma_filter_empty(p);
            assert(option_seq(o) =~= Seq::<ClientUpdate>::empty());
        },
    }
}

/// The events of one button in the updates of a step that moves the buttons.
proof fn lemma_button_updates_events(
    m: ControllerView,
    a: ButtonState,
    b: ButtonState,
    menu: ButtonState,
)
    ensures
        button_events(button_updates(m, a, b, menu), ClientUpdate::ButtonADown, ClientUpdate::ButtonAUp)
            == option_seq(transition(m.button_a, a, ClientUpdate::ButtonADown, ClientUpdate::ButtonAUp)),
        button_events(button_updates(m, a, b, menu), ClientUpdate::ButtonBDown, ClientUpdate::ButtonBUp)
            == option_seq(transition(m.button_b, b, ClientUpdate::ButtonBDown, ClientUpdate::ButtonBUp)),
        button_events(
            button_updates(m, a, b, menu),
            ClientUpdate::ButtonMenuDown,
            ClientUpdate::ButtonMenuUp,
        ) == option_seq(
            transition(m.button_menu, menu, ClientUpdate::ButtonMenuDown, ClientUpdate::ButtonMenuUp),
        ),
{
    let ta = option_seq(transition(m.button_a, a, ClientUpdate::ButtonADown, ClientUpdate::ButtonAUp));
    let tb = option_seq(transition(m.button_b, b, ClientUpdate::ButtonBDown, ClientUpdate::ButtonBUp));
    let tm = option_seq(
        transition(m.button_menu, menu, ClientUpdate::ButtonMenuDown, ClientUpdate::ButtonMenuUp),
    );
    let pa = is_event_of(ClientUpdate::ButtonADown, ClientUpdate::ButtonAUp);
    let pb = is_event_of(ClientUpdate::ButtonBDown, ClientUpdate::ButtonBUp);
    let pm = is_event_of(ClientUpdate::ButtonMenuDown, ClientUpdate::ButtonMenuUp);
    assert(button_updates(m, a, b, menu) == ta + tb + tm);
    broadcast use Seq::filter_distributes_over_add;

    lemma_option_seq_filter(transition(m.button_a, a, ClientUpdate::ButtonADown, ClientUpdate::ButtonAUp), pa);
    lemma_option_seq_filter(transition(m.button_b, b, ClientUpdate::ButtonBDown, ClientUpdate::ButtonBUp), pa);
    lemma_option_seq_filter(
        transition(m.button_menu, menu, ClientUpdate::ButtonMenuDown, ClientUpdate::ButtonMenuUp),
        pa,
    );
    lemma_option_seq_filter(transition(m.button_a, a, ClientUpdate::ButtonADown, ClientUpdate::ButtonAUp), pb);
    lemma_option_seq_filter(transition(m.button_b, b, ClientUpdate::ButtonBDown, ClientUpdate::ButtonBUp), pb);
    lemma_option_seq_filter(
        transition(m.button_menu, menu, ClientUpdate::ButtonMenuDown, ClientUpdate::ButtonMenuUp),
        pb,
    );
    lemma_option_seq_filter(transition(m.button_a, a, ClientUpdate::ButtonADown, ClientUpdate::ButtonAUp), pm);
    lemma_option_seq_filter(transition(m.button_b, b, ClientUpdate::ButtonBDown, ClientUpdate::ButtonBUp), pm);
    lemma_option_seq_filter(
        transition(m.button_menu, menu, ClientUpdate::ButtonMenuDown, ClientUpdate::ButtonMenuUp),
        pm,
    );
    assert((ta + tb + tm).filter(pa) =~= ta);
    assert((ta + tb + tm).filter(pb) =~= tb);
    assert((ta + tb + tm).filter(pm) =~= tm);
}

/// One button's agreement is kept when it moves from `old` to `new` and its
/// event for that move is appended.
proof fn lemma_button_move_agrees(
    old: ButtonState,
    new: ButtonState,
    events: Seq<ClientUpdate>,
    down: ClientUpdate,
    up: ClientUpdate,
)
    requires
        down != up,
        button_history_agrees(old, events, down, up),
    ensures
        button_history_agrees(new, events + option_seq(transition(old, new, down, up)), down, up),
{
    reveal(button_history_agrees);
    let appended = events + option_seq(transition(old, new, down, up));
    if old == new {
        assert(appended =~= events);
    } else {
        assert(appended.len() == events.len() + 1);
        assert forall|i: int| 0 <= i < appended.len() implies #[trigger] appended[i] == (if i % 2
            == 0 {
            down
        } else {
            up
        }) by {
            if i < events.len() {
                assert(appended[i] == events[i]);
            }
        }
    }
}

proof fn lemma_reading_step_events(m: ControllerView, controls: ClassicControls)
    ensures
        button_events(classic_updates(m, controls), ClientUpdate::ButtonADown, ClientUpdate::ButtonAUp)
            == option_seq(
            transition(m.button_a, controls.button_a, ClientUpdate::ButtonADown, ClientUpdate::ButtonAUp),
        ),
        button_events(classic_updates(m, controls), ClientUpdate::ButtonBDown, ClientUpdate::ButtonBUp)
            == option_seq(
            transition(m.button_b, controls.button_b, ClientUpdate::ButtonBDown, ClientUpdate::ButtonBUp),
        ),
        button_events(
            classic_updates(m, controls),
            ClientUpdate::ButtonMenuDown,
            ClientUpdate::ButtonMenuUp,
        ) == option_seq(
            transition(
                m.button_menu,
                controls.button_menu,
                ClientUpdate::ButtonMenuDown,
                ClientUpdate::ButtonMenuUp,
            ),
        ),
{
    lemma_reading_events(m, controls, ClientUpdate::ButtonADown, ClientUpdate::ButtonAUp);
    lemma_reading_events(m, controls, ClientUpdate::ButtonBDown, ClientUpdate::ButtonBUp);
    lemma_reading_events(m, controls, ClientUpdate::ButtonMenuDown, ClientUpdate::ButtonMenuUp);
    lemma_button_updates_events(m, controls.button_a, controls.button_b, controls.button_menu);
}

proof fn lemma_joystick_step_events(m: ControllerView, stick: JoystickState)
    ensures
        button_events(
            seq![ClientUpdate::JoystickMoved { stick }],
            ClientUpdate::ButtonADown,
            ClientUpdate::ButtonAUp,
        ) == option_seq(
            transition(m.button_a, m.button_a, ClientUpdate::ButtonADown, ClientUpdate::ButtonAUp),
        ),
        button_events(
            seq![ClientUpdate::JoystickMoved { stick }],
            ClientUpdate::ButtonBDown,
            ClientUpdate::ButtonBUp,
        ) == option_seq(
            transition(m.button_b, m.button_b, ClientUpdate::ButtonBDown, ClientUpdate::ButtonBUp),
        ),
        button_events(
            seq![ClientUpdate::JoystickMoved { stick }],
            ClientUpdate::ButtonMenuDown,
            ClientUpdate::ButtonMenuUp,
        ) == option_seq(
            transition(
                m.button_menu,
                m.button_menu,
                ClientUpdate::ButtonMenuDown,
                ClientUpdate::ButtonMenuUp,
            ),
        ),
{
    let moved = ClientUpdate::JoystickMoved { stick };
    lemma_filter_singleton(moved, is_event_of(ClientUpdate::ButtonADown, ClientUpdate::ButtonAUp));
    lemma_filter_singleton(moved, is_event_of(ClientUpdate::ButtonBDown, ClientUpdate::ButtonBUp));
    lemma_filter_singleton(moved, is_event_of(ClientUpdate::ButtonMenuDown, ClientUpdate::ButtonMenuUp));
    assert(option_seq(None) =~= Seq::<ClientUpdate>::empty());
}

/// A reading reports the same events of a button as its button moves alone.
proof fn lemma_reading_events(
    m: ControllerView,
    controls: ClassicControls,
    down: ClientUpdate,
    up: ClientUpdate,
)
    requires
        !(down is JoystickMoved),
        !(up is JoystickMoved),
    ensures
        button_events(classic_updates(m, controls), down, up) == button_events(
            button_updates(m, controls.button_a, controls.button_b, controls.button_menu),
            down,
            up,
        ),
{
    let buttons = button_updates(m, controls.button_a, controls.button_b, controls.button_menu);
    let stick = JoystickState::Packed { raw_x: controls.raw_x, raw_y: controls.raw_y };
    let p = is_event_of(down, up);
    if stick != m.joystick {
        let moved = seq![ClientUpdate::JoystickMoved { stick }];
        assert(classic_updates(m, controls) == moved + buttons);
        Seq::filter_distributes_over_add(moved, buttons, p);
        lemma_filter_singleton(ClientUpdate::JoystickMoved { stick }, p);
        assert((moved + buttons).filter(p) =~= buttons.filter(p));
    } else {
        assert(classic_updates(m, controls) =~= buttons);
    }
}

/// One button's agreement is kept when a step reports exactly its event for
/// the move from `old` to `new`, among events of other kinds.
proof fn lemma_button_step_agrees(
    old: ButtonState,
    new: ButtonState,
    history: Seq<ClientUpdate>,
    reported: Seq<ClientUpdate>,
    down: ClientUpdate,
    up: ClientUpdate,
)
    requires
        down != up,
        button_history_agrees(old, button_events(history, down, up), down, up),
        button_events(reported, down, up) == option_seq(transition(old, new, down, up)),
    ensures
        button_history_agrees(new, button_events(history + reported, down, up), down, up),
{
    Seq::filter_distributes_over_add(history, reported, is_event_of(down, up));
    lemma_button_move_agrees(old, new, button_events(history, down, up), down, up);
}

/// Agreement is kept by a step that moves the buttons of `m` to `a`, `b`
/// and `menu`, ending in `after`, and reports exactly their events.
proof fn lemma_button_moves_keep_history(
    m: ControllerView,
    after: ControllerView,
    history: Seq<ClientUpdate>,
    reported: Seq<ClientUpdate>,
    a: ButtonState,
    b: ButtonState,
    menu: ButtonState,
)
    requires
        history_agrees(m, history),
        after.button_a == a,
        after.button_b == b,
        after.button_menu == menu,
        button_events(reported, ClientUpdate::ButtonADown, ClientUpdate::ButtonAUp) == option_seq(
            transition(m.button_a, a, ClientUpdate::ButtonADown, ClientUpdate::ButtonAUp),
        ),
        button_events(reported, ClientUpdate::ButtonBDown, ClientUpdate::ButtonBUp) == option_seq(
            transition(m.button_b, b, ClientUpdate::ButtonBDown, ClientUpdate::ButtonBUp),
        ),
        button_events(reported, ClientUpdate::ButtonMenuDown, ClientUpdate::ButtonMenuUp)
            == option_seq(
            transition(m.button_menu, menu, ClientUpdate::ButtonMenuDown, ClientUpdate::ButtonMenuUp),
        ),
    ensures
        history_agrees(after, history + reported),
{
    lemma_button_step_agrees(
        m.button_a,
        a,
        history,
        reported,
        ClientUpdate::ButtonADown,
        ClientUpdate::ButtonAUp,
    );
    lemma_button_step_agrees(
        m.button_b,
        b,
        history,
        reported,
        ClientUpdate::ButtonBDown,
        ClientUpdate::ButtonBUp,
    );
    lemma_button_step_agrees(
        m.button_menu,
        menu,
        history,
        reported,
        ClientUpdate::ButtonMenuDown,
        ClientUpdate::ButtonMenuUp,
    );
}

/// Every step keeps the history in agreement with the state.
pub proof fn lemma_step_keeps_history(
    m: ControllerView,
    history: Seq<ClientUpdate>,
    step: ControllerStep,
)
    requires
        history_agrees(m, history),
    ensures
        history_agrees(apply_step(m, step).0, history + apply_step(m, step).1),
{
    match step {
        ControllerStep::Buttons { a, b, menu } => {
            let after = with_buttons(m, a, b, menu);
            let reported = button_updates(m, a, b, menu);
            assert(apply_step(m, step) == (after, reported)) by {
                reveal(apply_step);
            }
            lemma_button_updates_events(m, a, b, menu);
            lemma_button_moves_keep_history(m, after, history, reported, a, b, menu);
        },
        ControllerStep::Reading { controls } => {
            let after = classic_next_view(m, controls);
            let reported = classic_updates(m, controls);
            assert(apply_step(m, step) == (after, reported)) by {
                reveal(apply_step);
            }
            lemma_reading_step_events(m, controls);
            lemma_button_moves_keep_history(
                m,
                after,
                history,
                reported,
                controls.button_a,
                controls.button_b,
                controls.button_menu,
            );
        },
        ControllerStep::Joystick { stick } => {
            let after = with_joystick(m, stick);
            let reported = seq![ClientUpdate::JoystickMoved { stick }];
            assert(apply_step(m, step) == (after, reported)) by {
                reveal(apply_step);
            }
            lemma_joystick_step_events(m, stick);
            lemma_button_moves_keep_history(
                m,
                after,
                history,
                reported,
                m.button_a,
                m.button_b,
                m.button_menu,
            );
        },
    }
}

/// Over any run of steps from a fresh state, each button's events alternate
/// down, up, down, ..., starting with down, and after every step a button is
/// held exactly when its last event is down.
pub proof fn lemma_button_events_alternate(steps: Seq<ControllerStep>)
    ensures
        history_agrees(run_steps(initial_view(), steps).0, run_steps(initial_view(), steps).1),
    decreases steps.len(),
{
    if steps.len() == 0 {
        reveal(button_history_agrees);
        lemma_filter_empty(is_event_of(ClientUpdate::ButtonADown, ClientUpdate::ButtonAUp));
        lemma_filter_empty(is_event_of(ClientUpdate::ButtonBDown, ClientUpdate::ButtonBUp));
        lemma_filter_empty(is_event_of(ClientUpdate::ButtonMenuDown, ClientUpdate::ButtonMenuUp));
    } else {
        lemma_button_events_alternate(steps.drop_last());
        let (before, history) = run_steps(initial_view(), steps.drop_last());
        lemma_step_keeps_history(before, history, steps.last());
    }
}

} // verus!
