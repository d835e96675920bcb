//! The interaction engine: owns the whole application state and routes key
//! and pointer events into state transitions.
//!
//! The surrounding binary runs the render/expire/poll/dispatch loop: each
//! iteration it draws the current mode (re-registering every clickable
//! region through [`App::begin_frame`], [`App::add_button`] and
//! [`App::add_input`]), expires due messages, polls its event source with a
//! bounded wait, and hands any event to [`App::on_key`] or
//! [`App::on_mouse_click`]. A submitted form comes back to the caller as a
//! [`Boardgame`] request; the caller performs the store call and reports the
//! outcome through [`App::on_create_result`]. Every transition is stated
//! against a specification-level copy of the state, [`AppView`].
use vstd::prelude::*;

use crate::boardgame::{
    Boardgame,
    BoardgameView,
    BG_DESCRIPTION,
    BG_MAX_PLAYERS,
    BG_MIN_PLAYERS,
    BG_NAME,
    BG_PLAY_TIME,
};
use crate::focus::{buffer_or_empty, FocusModel};
use crate::messages::{spec_expire, MessageQueue, MESSAGE_TIMEOUT_MS};
use crate::mode::{Mode, ModeStack};
use crate::parse_int::{parse_i32, spec_parse_i32, ParseIntError};
use crate::region::Region;
use crate::registry::{spec_last_hit, Action, HitTestRegistry};

verus! {

/// A key press as the engine sees it. The binary maps whatever its input
/// source yields onto these; keys the engine gives no meaning arrive as
/// `Other`.
#[derive(Clone, Copy, PartialEq, Eq, Structural, Debug)]
pub enum Key {
    Char(char),
    Enter,
    Backspace,
    Other,
}

/// The whole engine state as the specification sees it.
#[verifier::ext_equal]
pub ghost struct AppView {
    /// Navigation history, bottom first; the last element is the current mode.
    pub modes: Seq<Mode>,
    /// The input field that owns keystrokes, if any.
    pub selected: Option<Seq<char>>,
    /// Text buffers of the input fields, keyed by field.
    pub buffers: Map<Seq<char>, Seq<char>>,
    /// Action bindings of the current frame, in registration order.
    pub actions: Seq<(Region, Action)>,
    /// Input-field bindings of the current frame, in registration order.
    pub inputs: Seq<(Region, Seq<char>)>,
    /// Pending notices, front first, each with its creation time.
    pub messages: Seq<(Seq<char>, u64)>,
    /// Whether the loop should stop.
    pub should_quit: bool,
    /// Last known pointer position, for hover highlighting.
    pub cursor: Option<(u16, u16)>,
    /// Whether the diagnostic shortcut is live.
    pub debug: bool,
    /// How long a notice stays before it expires, in milliseconds.
    pub message_timeout_ms: u64,
}

/// The engine state after the clearing that every mode transition performs:
/// no frame bindings, no focus, no field buffers, no pending messages. Each
/// mode owns a disjoint widget set and disjoint notices, so carrying any of
/// these across a transition would let a stale region be clicked or leak one
/// form's text into another.
pub open spec fn spec_clear_transient(v: AppView) -> AppView {
    AppView {
        selected: None,
        buffers: Map::empty(),
        actions: Seq::empty(),
        inputs: Seq::empty(),
        messages: Seq::empty(),
        ..v
    }
}

/// The engine state with one notice appended at the back of the queue.
pub open spec fn spec_push_message(v: AppView, text: Seq<char>, now: u64) -> AppView {
    AppView { messages: v.messages.push((text, now)), ..v }
}

/// A push transition: the new mode goes on top of the stack and all
/// transient state is cleared.
pub open spec fn spec_switch_mode(v: AppView, mode: Mode) -> AppView {
    AppView { modes: v.modes.push(mode), ..spec_clear_transient(v) }
}

/// A pop transition: a no-op on the root mode, otherwise the top mode is
/// removed and all transient state is cleared.
pub open spec fn spec_prev_mode(v: AppView) -> AppView {
    if v.modes.len() <= 1 {
        v
    } else {
        AppView { modes: v.modes.drop_last(), ..spec_clear_transient(v) }
    }
}

/// The one diagnostic notice the debug shortcut queues: it names the "back"
/// target of the navigation stack.
pub open spec fn spec_debug_text(v: AppView) -> Seq<char> {
    if v.modes.len() > 1 {
        match v.modes[v.modes.len() - 2] {
            Mode::Main => "previous mode: Main"@,
            Mode::Adding => "previous mode: Adding"@,
            Mode::Quitting => "previous mode: Quitting"@,
        }
    } else {
        "previous mode: none"@
    }
}

/// What a key press does.
///
/// While a field is focused, the field's buffer is first brought into being
/// (empty) if absent; then a character key appends to it, backspace removes
/// its last character, Enter gives up the focus without altering the buffer,
/// and any other key queues an unhandled-key notice without touching the
/// buffer.
///
/// While nothing is focused, `q` enters the quit-confirmation mode,
/// backspace goes back one mode, `d` (when diagnostics are live) queues a
/// diagnostic notice, and anything else queues an unhandled-key notice.
pub open spec fn spec_on_key(v: AppView, key: Key, now: u64) -> AppView {
    match v.selected {
        Some(f) => {
            let touched = AppView {
                buffers: v.buffers.insert(f, buffer_or_empty(v.buffers, f)),
                ..v
            };
            match key {
                Key::Enter => AppView { selected: None, ..touched },
                Key::Backspace => AppView {
                    buffers: v.buffers.insert(
                        f,
                        if buffer_or_empty(v.buffers, f).len() > 0 {
                            buffer_or_empty(v.buffers, f).drop_last()
                        } else {
                            Seq::empty()
                        },
                    ),
                    ..v
                },
                Key::Char(c) => AppView {
                    buffers: v.buffers.insert(f, buffer_or_empty(v.buffers, f).push(c)),
                    ..v
                },
                Key::Other => spec_push_message(touched, "Unhandled key"@, now),
            }
        },
        None => match key {
            Key::Char(c) => if c == 'q' {
                spec_switch_mode(v, Mode::Quitting)
            } else if c == 'd' && v.debug {
                spec_push_message(v, spec_debug_text(v), now)
            } else {
                spec_push_message(v, "Unhandled key"@, now)
            },
            Key::Backspace => spec_prev_mode(v),
            _ => spec_push_message(v, "Unhandled key"@, now),
        },
    }
}

/// The parse outcome of a numeric form field: a field that was never given
/// a buffer counts as zero; a field with a buffer must parse.
pub open spec fn spec_field_parse(buffers: Map<Seq<char>, Seq<char>>, key: Seq<char>) -> Result<
    i32,
    ParseIntError,
> {
    if buffers.contains_key(key) {
        spec_parse_i32(buffers[key])
    } else {
        Ok(0)
    }
}

/// The notice queued when the numeric field `key` fails to parse.
pub open spec fn spec_bad_value_text(key: Seq<char>, e: ParseIntError) -> Seq<char> {
    "Bad value for '"@ + key + "': "@ + e.spec_message()
}

/// What submitting the add-record form does: the numeric fields are parsed
/// in a fixed order and the first failure queues a notice naming the field,
/// leaving everything else (mode, buffers, focus) unchanged; if all three
/// parse, the state is untouched and a create request carrying the parsed
/// fields is handed to the caller, to be answered through the create-result
/// transition.
pub open spec fn spec_submit(v: AppView, now: u64) -> (AppView, Option<BoardgameView>) {
    let min = spec_field_parse(v.buffers, BG_MIN_PLAYERS@);
    let max = spec_field_parse(v.buffers, BG_MAX_PLAYERS@);
    let play = spec_field_parse(v.buffers, BG_PLAY_TIME@);
    if min is Err {
        (spec_push_message(v, spec_bad_value_text(BG_MIN_PLAYERS@, min->Err_0), now), None)
    } else if max is Err {
        (spec_push_message(v, spec_bad_value_text(BG_MAX_PLAYERS@, max->Err_0), now), None)
    } else if play is Err {
        (spec_push_message(v, spec_bad_value_text(BG_PLAY_TIME@, play->Err_0), now), None)
    } else {
        (
            v,
            Some(
                BoardgameView {
                    id: None,
                    name: buffer_or_empty(v.buffers, BG_NAME@),
                    min_players: min->Ok_0,
                    max_players: max->Ok_0,
                    play_time_minutes: play->Ok_0,
                    description: buffer_or_empty(v.buffers, BG_DESCRIPTION@),
                },
            ),
        )
    }
}

/// What an action bound to a clicked region does.
pub open spec fn spec_dispatch(v: AppView, action: Action, now: u64) -> (
    AppView,
    Option<BoardgameView>,
) {
    match action {
        Action::GoToAddNew => (spec_switch_mode(v, Mode::Adding), None),
        Action::GoToQuit => (spec_switch_mode(v, Mode::Quitting), None),
        Action::PrevMode => (spec_prev_mode(v), None),
        Action::Quit => (AppView { should_quit: true, ..v }, None),
        Action::AddNewBoardgame => spec_submit(v, now),
    }
}

/// What a pointer press does: if the point resolves to an input field, that
/// field takes the focus and nothing else happens this event; otherwise the
/// focus is explicitly dropped, and the action bound at the point, if any,
/// runs.
pub open spec fn spec_on_click(v: AppView, x: u16, y: u16, now: u64) -> (
    AppView,
    Option<BoardgameView>,
) {
    match spec_last_hit(v.inputs, x, y) {
        Some(f) => (AppView { selected: Some(f), ..v }, None),
        None => {
            let v1 = AppView { selected: None, ..v };
            match spec_last_hit(v.actions, x, y) {
                None => (v1, None),
                Some(a) => spec_dispatch(v1, a, now),
            }
        },
    }
}

/// What the store's answer to a create request does: success pops back to
/// the previous mode (clearing transient state with it) and queues a success
/// notice; failure queues a failure notice carrying the store's own words
/// and leaves the mode unchanged, the attempted record not being applied.
pub open spec fn spec_on_create_result(v: AppView, outcome: Result<i64, Seq<char>>, now: u64) -> AppView {
    match outcome {
        Ok(_) => spec_push_message(spec_prev_mode(v), "Successfully added new boardgame!"@, now),
        Err(e) => spec_push_message(v, "Error adding boardgame: "@ + e, now),
    }
}

/// Whether an optional create request equals its specification reading.
pub open spec fn request_matches(r: Option<Boardgame>, req: Option<BoardgameView>) -> bool {
    match r {
        Some(b) => req == Some(b@),
        None => req is None,
    }
}

/// Law: after a push transition, no stale state survives: the hit-test
/// registry holds no binding, nothing is focused, every field buffer is
/// gone, and no notice is pending; only the navigation stack (with the new
/// mode on top) and the persistent flags carry over.
pub proof fn lemma_push_clears_transient(v: AppView, mode: Mode)
    ensures
        spec_switch_mode(v, mode).actions == Seq::<(Region, Action)>::empty(),
        spec_switch_mode(v, mode).inputs == Seq::<(Region, Seq<char>)>::empty(),
        spec_switch_mode(v, mode).selected is None,
        spec_switch_mode(v, mode).buffers == Map::<Seq<char>, Seq<char>>::empty(),
        spec_switch_mode(v, mode).messages == Seq::<(Seq<char>, u64)>::empty(),
        spec_switch_mode(v, mode).modes == v.modes.push(mode),
        spec_switch_mode(v, mode).should_quit == v.should_quit,
{
}

/// Law: after a pop transition off a non-root mode, no stale state
/// survives, exactly as after a push; on the root mode a pop changes
/// nothing at all.
pub proof fn lemma_pop_clears_transient(v: AppView)
    ensures
        v.modes.len() <= 1 ==> spec_prev_mode(v) == v,
        v.modes.len() > 1 ==> {
            &&& spec_prev_mode(v).actions == Seq::<(Region, Action)>::empty()
            &&& spec_prev_mode(v).inputs == Seq::<(Region, Seq<char>)>::empty()
            &&& spec_prev_mode(v).selected is None
            &&& spec_prev_mode(v).buffers == Map::<Seq<char>, Seq<char>>::empty()
            &&& spec_prev_mode(v).messages == Seq::<(Seq<char>, u64)>::empty()
            &&& spec_prev_mode(v).modes == v.modes.drop_last()
        },
{
}

/// Law: a click whose point resolves to a registered input region gives
/// that field the focus, and does nothing else: no action fires, and no
/// buffer, mode or message changes.
pub proof fn lemma_click_inside_input_focuses(v: AppView, x: u16, y: u16, now: u64, f: Seq<char>)
    requires
        spec_last_hit(v.inputs, x, y) == Some(f),
    ensures
        spec_on_click(v, x, y, now).0 == (AppView { selected: Some(f), ..v }),
        spec_on_click(v, x, y, now).1 is None,
{
}

/// Law: a click inside any registered input region — the premise admits
/// overlapping regions bound to other fields — focuses a field that this
/// frame registered under a region containing the point (the last such
/// registration), fires no action even if an action region also contains
/// the point, and leaves modes, buffers and messages unchanged.
pub proof fn lemma_click_inside_any_input_focuses(v: AppView, x: u16, y: u16, now: u64, i: int)
    requires
        0 <= i < v.inputs.len(),
        v.inputs[i].0.spec_contains(x, y),
    ensures
        spec_on_click(v, x, y, now).1 is None,
        spec_on_click(v, x, y, now).0 == (AppView {
            selected: spec_on_click(v, x, y, now).0.selected,
            ..v
        }),
        exists|j: int|
            0 <= j < v.inputs.len() && (#[trigger] v.inputs[j]).0.spec_contains(x, y)
                && spec_on_click(v, x, y, now).0.selected == Some(v.inputs[j].1),
{
    crate::registry::lemma_hit_when_contained(v.inputs, x, y, i);
    crate::registry::lemma_hit_is_registered(v.inputs, x, y);
    let f = spec_last_hit(v.inputs, x, y)->Some_0;
    lemma_click_inside_input_focuses(v, x, y, now, f);
}

/// Law: Enter while a field is focused returns the engine to the unfocused
/// state without altering any field's text: the focused field's content
/// persists for later submission, exactly as a submission would read it
/// (its buffer coming into being, empty, if no keystroke ever made one —
/// when it already exists the buffers do not change at all).
pub proof fn lemma_enter_keeps_buffer(v: AppView, now: u64, f: Seq<char>)
    requires
        v.selected == Some(f),
    ensures
        spec_on_key(v, Key::Enter, now).selected is None,
        forall|g: Seq<char>|
            #[trigger] buffer_or_empty(spec_on_key(v, Key::Enter, now).buffers, g)
                == buffer_or_empty(v.buffers, g),
        v.buffers.contains_key(f) ==> spec_on_key(v, Key::Enter, now).buffers == v.buffers,
        spec_on_key(v, Key::Enter, now).modes == v.modes,
        spec_on_key(v, Key::Enter, now).messages == v.messages,
{
    if v.buffers.contains_key(f) {
        assert(v.buffers.insert(f, buffer_or_empty(v.buffers, f)) =~= v.buffers);
    }
}

/// Law: while a field is focused, backspace undoes the character key typed
/// just before it: the field's buffers read the same as if neither key had
/// been pressed (the buffer itself now existing, as any keystroke makes it).
pub proof fn lemma_backspace_undoes_char(v: AppView, c: char, now1: u64, now2: u64, f: Seq<char>)
    requires
        v.selected == Some(f),
    ensures
        spec_on_key(spec_on_key(v, Key::Char(c), now1), Key::Backspace, now2).buffers
            == v.buffers.insert(f, buffer_or_empty(v.buffers, f)),
{
    let b = buffer_or_empty(v.buffers, f);
    let v1 = spec_on_key(v, Key::Char(c), now1);
    assert(buffer_or_empty(v1.buffers, f) == b.push(c));
    assert(b.push(c).drop_last() =~= b);
    assert(v1.buffers.insert(f, b) =~= v.buffers.insert(f, b));
}

/// Law: when every numeric field parses, submitting changes nothing and
/// hands out a create request carrying exactly the parsed numbers and the
/// name and description texts as the buffers hold them; and a successful
/// store answer then pops back to the previous mode — off a non-root mode
/// the stack loses exactly its top — clearing all transient state, after
/// which exactly one success notice is queued.
pub proof fn lemma_successful_submission(v: AppView, now1: u64, id: i64, now2: u64)
    requires
        spec_field_parse(v.buffers, BG_MIN_PLAYERS@) is Ok,
        spec_field_parse(v.buffers, BG_MAX_PLAYERS@) is Ok,
        spec_field_parse(v.buffers, BG_PLAY_TIME@) is Ok,
    ensures
        spec_submit(v, now1).0 == v,
        spec_submit(v, now1).1 == Some(
            BoardgameView {
                id: None,
                name: buffer_or_empty(v.buffers, BG_NAME@),
                min_players: spec_field_parse(v.buffers, BG_MIN_PLAYERS@)->Ok_0,
                max_players: spec_field_parse(v.buffers, BG_MAX_PLAYERS@)->Ok_0,
                play_time_minutes: spec_field_parse(v.buffers, BG_PLAY_TIME@)->Ok_0,
                description: buffer_or_empty(v.buffers, BG_DESCRIPTION@),
            },
        ),
        v.modes.len() > 1 ==> {
            let after = spec_on_create_result(v, Ok(id), now2);
            &&& after.modes == v.modes.drop_last()
            &&& after.messages == seq![("Successfully added new boardgame!"@, now2)]
            &&& after.selected is None
            &&& after.buffers == Map::<Seq<char>, Seq<char>>::empty()
            &&& after.actions == Seq::<(Region, Action)>::empty()
            &&& after.inputs == Seq::<(Region, Seq<char>)>::empty()
        },
{
    if v.modes.len() > 1 {
        let after = spec_on_create_result(v, Ok(id), now2);
        assert(after.messages =~= seq![("Successfully added new boardgame!"@, now2)]);
    }
}

/// The interaction engine. All state lives here, owned directly; the loop
/// around it is single-threaded, so no sharing is needed.
pub struct App {
    modes: ModeStack,
    focus: FocusModel,
    registry: HitTestRegistry,
    messages: MessageQueue,
    should_quit: bool,
    cursor: Option<(u16, u16)>,
    debug: bool,
    message_timeout_ms: u64,
}

impl View for App {
    type V = AppView;

    closed spec fn view(&self) -> AppView {
        AppView {
            modes: self.modes@,
            selected: self.focus@.selected,
            buffers: self.focus@.buffers,
            actions: self.registry@.actions,
            inputs: self.registry@.inputs,
            messages: self.messages@,
            should_quit: self.should_quit,
            cursor: self.cursor,
            debug: self.debug,
            message_timeout_ms: self.message_timeout_ms,
        }
    }
}

impl App {
    /// The navigation stack is never empty.
    pub open spec fn wf(&self) -> bool {
        self@.modes.len() >= 1
    }

    /// A fresh engine: in the main mode, nothing focused, no bindings, no
    /// messages, diagnostics live, the standard message timeout.
    pub fn new() -> (app: Self)
        ensures
            app.wf(),
            app@.modes == seq![Mode::Main],
            app@.selected is None,
            app@.buffers == Map::<Seq<char>, Seq<char>>::empty(),
            app@.actions == Seq::<(Region, Action)>::empty(),
            app@.inputs == Seq::<(Region, Seq<char>)>::empty(),
            app@.messages == Seq::<(Seq<char>, u64)>::empty(),
            !app@.should_quit,
            app@.cursor is None,
            app@.debug,
            app@.message_timeout_ms == MESSAGE_TIMEOUT_MS,
    {
        App {
            modes: ModeStack::new(Mode::Main),
            focus: FocusModel::new(),
            registry: HitTestRegistry::new(),
            messages: MessageQueue::new(),
            should_quit: false,
            cursor: None,
            debug: true,
            message_timeout_ms: MESSAGE_TIMEOUT_MS,
        }
    }

    /// Clears everything a mode owns: frame bindings, focus, buffers and
    /// pending messages.
    fn clear_state(&mut self)
        ensures
            final(self)@ == spec_clear_transient(old(self)@),
    {
        self.registry.clear();
        self.focus.clear();
        self.messages.clear();
        proof {
            assert(final(self)@ =~= spec_clear_transient(old(self)@));
        }
    }

    /// Enters `mode`, pushing it on the navigation stack and clearing all
    /// transient state.
    pub fn switch_mode(&mut self, mode: Mode)
        requires
            old(self).wf(),
        ensures
            final(self).wf(),
            final(self)@ == spec_switch_mode(old(self)@, mode),
    {
        self.modes.push(mode);
        self.clear_state();
        proof {
            assert(final(self)@ =~= spec_switch_mode(old(self)@, mode));
        }
    }

    /// Goes back one mode, clearing all transient state; a no-op on the
    /// root mode.
    pub fn prev_mode(&mut self)
        requires
            old(self).wf(),
        ensures
            final(self).wf(),
            final(self)@ == spec_prev_mode(old(self)@),
    {
        if self.modes.len() > 1 {
            self.modes.pop();
            self.clear_state();
            proof {
                assert(final(self)@ =~= spec_prev_mode(old(self)@));
            }
        }
    }

    /// The mode below the current one: the "back" target, if any.
    pub fn get_prev_mode(&self) -> (m: Option<Mode>)
        ensures
            self@.modes.len() <= 1 ==> m is None,
            self@.modes.len() > 1 ==> m == Some(self@.modes[self@.modes.len() - 2]),
    {
        self.modes.previous()
    }

    /// The current mode, or `None` on an (ill-formed) empty stack.
    pub fn get_curr_mode(&self) -> (m: Option<Mode>)
        ensures
            self@.modes.len() == 0 ==> m is None,
            self@.modes.len() > 0 ==> m == Some(self@.modes.last()),
    {
        self.modes.current_opt()
    }

    /// How many modes the navigation stack holds.
    pub fn mode_count(&self) -> (n: usize)
        ensures
            n == self@.modes.len(),
    {
        self.modes.len()
    }

    /// Enters the quit-confirmation mode.
    pub fn go_to_quit(&mut self)
        requires
            old(self).wf(),
        ensures
            final(self).wf(),
            final(self)@ == spec_switch_mode(old(self)@, Mode::Quitting),
    {
        self.switch_mode(Mode::Quitting);
    }

    /// Enters the add-record mode.
    pub fn go_to_add_new(&mut self)
        requires
            old(self).wf(),
        ensures
            final(self).wf(),
            final(self)@ == spec_switch_mode(old(self)@, Mode::Adding),
    {
        self.switch_mode(Mode::Adding);
    }

    /// Sets the quit flag; the loop stops at its next check.
    pub fn quit(&mut self)
        ensures
            final(self)@ == (AppView { should_quit: true, ..old(self)@ }),
    {
        self.should_quit = true;
        proof {
            assert(final(self)@ =~= (AppView { should_quit: true, ..old(self)@ }));
        }
    }

    /// Whether the quit flag is set.
    pub fn should_quit(&self) -> (r: bool)
        ensures
            r == self@.should_quit,
    {
        self.should_quit
    }

    /// Starts a render pass: drops every binding of the previous frame, so
    /// that the mode's draw routine re-registers exactly what is on screen.
    pub fn begin_frame(&mut self)
        ensures
            final(self)@ == (AppView {
                actions: Seq::empty(),
                inputs: Seq::empty(),
                ..old(self)@
            }),
    {
        self.registry.clear();
        proof {
            assert(final(self)@ =~= (AppView {
                actions: Seq::empty(),
                inputs: Seq::empty(),
                ..old(self)@
            }));
        }
    }

    /// Binds a drawn region to an action for the current frame.
    pub fn add_button(&mut self, region: Region, action: Action)
        ensures
            final(self)@ == (AppView {
                actions: old(self)@.actions.push((region, action)),
                ..old(self)@
            }),
    {
        self.registry.register_action(region, action);
        proof {
            assert(final(self)@ =~= (AppView {
                actions: old(self)@.actions.push((region, action)),
                ..old(self)@
            }));
        }
    }

    /// Binds a drawn region to an input field for the current frame.
    pub fn add_input(&mut self, region: Region, key: String)
        ensures
            final(self)@ == (AppView {
                inputs: old(self)@.inputs.push((region, key@)),
                ..old(self)@
            }),
    {
        let ghost k = key@;
        self.registry.register_input(region, key);
        proof {
            assert(final(self)@ =~= (AppView { inputs: old(self)@.inputs.push((region, k)), ..old(self)@ }));
        }
    }

    /// Queues a notice.
    pub fn send_message(&mut self, msg: String, now: u64)
        ensures
            final(self)@ == spec_push_message(old(self)@, msg@, now),
    {
        self.messages.push(msg, now);
        proof {
            assert(final(self)@ =~= spec_push_message(old(self)@, msg@, now));
        }
    }

    /// The texts of the pending notices, front first, for rendering.
    pub fn get_messages(&self) -> (r: Vec<String>)
        ensures
            r@.len() == self@.messages.len(),
            forall|i: int| 0 <= i < r@.len() ==> r@[i]@ == self@.messages[i].0,
    {
        self.messages.snapshot()
    }

    /// How many notices are pending.
    pub fn message_count(&self) -> (n: usize)
        ensures
            n == self@.messages.len(),
    {
        self.messages.len()
    }

    /// Expires the front notice if it has waited out the timeout. Only the
    /// front is ever examined; later notices each wait their own turn.
    pub fn check_message_timeout(&mut self, now: u64)
        ensures
            final(self)@ == (AppView {
                messages: spec_expire(
                    old(self)@.messages,
                    now,
                    old(self)@.message_timeout_ms,
                ),
                ..old(self)@
            }),
    {
        let timeout = self.message_timeout_ms;
        self.messages.expire_if_due(now, timeout);
        proof {
            assert(final(self)@ =~= (AppView {
                messages: spec_expire(old(self)@.messages, now, old(self)@.message_timeout_ms),
                ..old(self)@
            }));
        }
    }

    /// Remembers the pointer position, for hover highlighting only.
    pub fn update_cursor(&mut self, x: u16, y: u16)
        ensures
            final(self)@ == (AppView { cursor: Some((x, y)), ..old(self)@ }),
    {
        self.cursor = Some((x, y));
        proof {
            assert(final(self)@ =~= (AppView { cursor: Some((x, y)), ..old(self)@ }));
        }
    }

    /// The last known pointer position.
    pub fn cursor(&self) -> (r: Option<(u16, u16)>)
        ensures
            r == self@.cursor,
    {
        self.cursor
    }

    /// The input field currently owning keystrokes, if any.
    pub fn selected_input(&self) -> (r: Option<String>)
        ensures
            match r {
                Some(f) => self@.selected == Some(f@),
                None => self@.selected is None,
            },
    {
        self.focus.selected_field()
    }

    /// The text of the input field `key`: what its buffer holds, the empty
    /// string if it has none.
    pub fn input_text(&self, key: &String) -> (r: String)
        ensures
            r@ == buffer_or_empty(self@.buffers, key@),
    {
        self.focus.current_text(key)
    }

    /// Queues the diagnostic notice.
    fn send_debug_message(&mut self, now: u64)
        ensures
            final(self)@ == spec_push_message(old(self)@, spec_debug_text(old(self)@), now),
    {
        let text: &'static str = match self.get_prev_mode() {
            Some(Mode::Main) => "previous mode: Main",
            Some(Mode::Adding) => "previous mode: Adding",
            Some(Mode::Quitting) => "previous mode: Quitting",
            None => "previous mode: none",
        };
        self.send_message(text.to_owned(), now);
    }

    /// Routes a key press, exactly as [`spec_on_key`] says.
    pub fn on_key(&mut self, key: Key, now: u64)
        requires
            old(self).wf(),
        ensures
            final(self).wf(),
            final(self)@ == spec_on_key(old(self)@, key, now),
    {
        match self.focus.selected_field() {
            Some(field) => {
                match key {
                    Key::Enter => {
                        self.focus.touch(&field);
                        self.focus.unselect();
                    },
                    Key::Backspace => {
                        self.focus.backspace(&field);
                    },
                    Key::Char(c) => {
                        self.focus.append_char(&field, c);
                    },
                    Key::Other => {
                        self.focus.touch(&field);
                        self.send_message(("Unhandled key").to_owned(), now);
                    },
                }
                proof {
                    assert(final(self)@ =~= spec_on_key(old(self)@, key, now));
                }
            },
            None => {
                match key {
                    Key::Char(c) => {
                        if c == 'q' {
                            self.go_to_quit();
                        } else if c == 'd' && self.debug {
                            self.send_debug_message(now);
                        } else {
                            self.send_message(("Unhandled key").to_owned(), now);
                        }
                    },
                    Key::Backspace => {
                        self.prev_mode();
                    },
                    _ => {
                        self.send_message(("Unhandled key").to_owned(), now);
                    },
                }
                proof {
                    assert(final(self)@ =~= spec_on_key(old(self)@, key, now));
                }
            },
        }
    }

    /// The parse outcome of the numeric field `key`.
    fn field_value(&self, key: &String) -> (r: Result<i32, ParseIntError>)
        ensures
            r == spec_field_parse(self@.buffers, key@),
    {
        match self.focus.buffer_of(key) {
            Some(text) => parse_i32(text.as_str()),
            None => Ok(0),
        }
    }

    /// The notice text for a numeric field that failed to parse.
    fn bad_value_message(key: &'static str, e: ParseIntError) -> (m: String)
        ensures
            m@ == spec_bad_value_text(key@, e),
    {
        ("Bad value for '").to_owned().concat(key).concat("': ").concat(e.message())
    }

    /// Submits the add-record form, exactly as [`spec_submit`] says: on the
    /// first numeric field that fails to parse, queues a notice naming that
    /// field and returns no request; otherwise returns the create request
    /// for the caller to run against the record store.
    pub fn add_new_boardgame(&mut self, now: u64) -> (r: Option<Boardgame>)
        requires
            old(self).wf(),
        ensures
            final(self).wf(),
            final(self)@ == spec_submit(old(self)@, now).0,
            request_matches(r, spec_submit(old(self)@, now).1),
    {
        let kmin = BG_MIN_PLAYERS.to_owned();
        let min_players = match self.field_value(&kmin) {
            Err(e) => {
                self.send_message(Self::bad_value_message(BG_MIN_PLAYERS, e), now);
                return None;
            },
            Ok(v) => v,
        };
        let kmax = BG_MAX_PLAYERS.to_owned();
        let max_players = match self.field_value(&kmax) {
            Err(e) => {
                self.send_message(Self::bad_value_message(BG_MAX_PLAYERS, e), now);
                return None;
            },
            Ok(v) => v,
        };
        let kplay = BG_PLAY_TIME.to_owned();
        let play_time_minutes = match self.field_value(&kplay) {
            Err(e) => {
                self.send_message(Self::bad_value_message(BG_PLAY_TIME, e), now);
                return None;
            },
            Ok(v) => v,
        };
        let kname = BG_NAME.to_owned();
        let kdescription = BG_DESCRIPTION.to_owned();
        let name = self.input_text(&kname);
        let description = self.input_text(&kdescription);
        Some(
            Boardgame {
                id: None,
                name,
                min_players,
                max_players,
                play_time_minutes,
                description,
            },
        )
    }

    /// Routes a pointer press, exactly as [`spec_on_click`] says: an input
    /// region takes the focus and ends the event; otherwise the focus is
    /// dropped and the action under the point, if any, runs. A returned
    /// record is a create request for the caller to run against the store.
    pub fn on_mouse_click(&mut self, x: u16, y: u16, now: u64) -> (r: Option<Boardgame>)
        requires
            old(self).wf(),
        ensures
            final(self).wf(),
            final(self)@ == spec_on_click(old(self)@, x, y, now).0,
            request_matches(r, spec_on_click(old(self)@, x, y, now).1),
    {
        match self.registry.hit_test_input(x, y) {
            Some(field) => {
                self.focus.select(field);
                proof {
                    assert(final(self)@ =~= spec_on_click(old(self)@, x, y, now).0);
                }
                None
            },
            None => {
                self.focus.unselect();
                proof {
                    assert(self@ =~= (AppView { selected: None, ..old(self)@ }));
                }
                match self.registry.hit_test_action(x, y) {
                    None => None,
                    Some(action) => match action {
                        Action::GoToAddNew => {
                            self.go_to_add_new();
                            None
                        },
                        Action::GoToQuit => {
                            self.go_to_quit();
                            None
                        },
                        Action::PrevMode => {
                            self.prev_mode();
                            None
                        },
                        Action::Quit => {
                            self.quit();
                            None
                        },
                        Action::AddNewBoardgame => self.add_new_boardgame(now),
                    },
                }
            },
        }
    }

    /// Reports the store's answer to a create request, exactly as
    /// [`spec_on_create_result`] says: success pops back to the previous
    /// mode and queues a success notice; failure queues a notice carrying
    /// the store's words and applies nothing.
    pub fn on_create_result(&mut self, outcome: Result<i64, String>, now: u64)
        requires
            old(self).wf(),
        ensures
            final(self).wf(),
            match outcome {
                Ok(id) => final(self)@ == spec_on_create_result(old(self)@, Ok(id), now),
                Err(e) => final(self)@ == spec_on_create_result(old(self)@, Err(e@), now),
            },
    {
        match outcome {
            Ok(_) => {
                self.prev_mode();
                self.send_message(("Successfully added new boardgame!").to_owned(), now);
            },
            Err(e) => {
                let msg = ("Error adding boardgame: ").to_owned().concat(e.as_str());
                self.send_message(msg, now);
            },
        }
    }

    /// Reports the store's answer to a list request and yields the records
    /// to render: success passes the records through and changes nothing;
    /// failure queues a notice carrying the store's words and yields an
    /// empty list.
    pub fn on_list_result(&mut self, outcome: Result<Vec<Boardgame>, String>, now: u64) -> (r: Vec<
        Boardgame,
    >)
        ensures
            outcome is Ok ==> final(self)@ == old(self)@,
            outcome matches Ok(list) ==> r == list,
            outcome matches Err(e) ==> final(self)@ == spec_push_message(
                old(self)@,
                "Error getting boardgames: "@ + e@,
                now,
            ) && r@.len() == 0,
    {
        match outcome {
            Ok(list) => list,
            Err(e) => {
                let msg = ("Error getting boardgames: ").to_owned().concat(e.as_str());
                self.send_message(msg, now);
                Vec::new()
            },
        }
    }
}

} // verus!
