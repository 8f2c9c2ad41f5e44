//! What each key and mouse event does to the dashboard, and the outside
//! work it asks of the program that runs the dashboard.
use crate::dashboard::{
    after_scroll, down_all_args, down_args, last_service, restart_args, same_except_state,
    selected_above, selected_below, strings_view, top_of_panes, unix_now, up_all_args, up_args,
    App, ComposeList,
};
use crate::logs::{spec_clear, spec_drop_lines, spec_start, spec_stop, spec_stop_all, StreamStart};
use crate::modifier::{flag_of_key, DockerModifier};
use crate::name_map::name_entries;
use crate::queue::{all_indices, spec_queue, QueueType};
use crate::screen::{next_pane, prev_pane, AlternateScreenContent, SplitScreen};
use vstd::prelude::*;

verus! {

/// The shift modifier bit.
pub const SHIFT: u8 = 1;

/// The control modifier bit.
pub const CONTROL: u8 = 2;

/// The alt modifier bit.
pub const ALT: u8 = 4;

/// Control and alt together.
pub const CONTROL_ALT: u8 = 6;

/// The keys the dashboard tells apart.
#[derive(Clone, Copy, Debug, PartialEq, Eq, Structural)]
pub enum KeyCode {
    Char(char),
    Esc,
    Up,
    Down,
    Enter,
    Tab,
    BackTab,
    PageUp,
    PageDown,
    Other,
}

/// A key press: the key and the exact set of modifiers held.
#[derive(Clone, Copy, Debug, PartialEq, Eq, Structural)]
pub struct Key {
    pub code: KeyCode,
    pub modifiers: u8,
}

/// The mouse events the dashboard tells apart.
#[derive(Clone, Copy, Debug, PartialEq, Eq, Structural)]
pub enum MouseKind {
    ScrollUp,
    ScrollDown,
    Other,
}

/// The outside work a key asks for.
pub enum KeyAction {
    /// Nothing beyond the change of state.
    Nothing,
    /// Run the orchestrator with these arguments; report its end as a
    /// `DockerEvent`.
    Run(Vec<String>),
    /// Cancel the log task `cancelled`, if any, then run the orchestrator
    /// with `args` as for `Run`.
    Restart { args: Vec<String>, cancelled: Option<u64> },
    /// List the running containers and hand them to `App::refresh`.
    Refresh,
    /// Start this log stream.
    Stream(StreamStart),
    /// Remove these containers with their volumes, then refresh.
    Remove(Vec<String>),
}

/// `r` runs the orchestrator with `args`.
pub open spec fn runs(r: KeyAction, args: Seq<Seq<char>>) -> bool {
    match r {
        KeyAction::Run(v) => strings_view(v@) == args,
        _ => false,
    }
}

/// The dashboard without its error message.
pub open spec fn without_error(o: App) -> App {
    App { compose_content: ComposeList { error_msg: None, ..o.compose_content }, ..o }
}

/// `f` is `e` with the queues and streams of `o` left as they were.
pub open spec fn unchanged_state(e: App, o: App, f: App) -> bool {
    &&& same_except_state(e, f)
    &&& f.compose_content.start_queued@ == o.compose_content.start_queued@
    &&& f.compose_content.stop_queued@ == o.compose_content.stop_queued@
    &&& f.compose_content.logs@ == o.compose_content.logs@
}

/// Escape: close what covers the main screen, else the popup, else quit.
pub open spec fn escaped(o: App, f: App, r: KeyAction) -> bool {
    &&& r is Nothing
    &&& f == if o.alternate_screen_content != AlternateScreenContent::Main {
        App { alternate_screen_content: AlternateScreenContent::Main, ..o }
    } else if o.show_popup {
        App { show_popup: false, popup_scroll: 0, ..o }
    } else {
        App { running: false, ..o }
    }
}

/// Enter: close what covers the main screen, else the popup, else bring
/// the selected service up and queue its start.
pub open spec fn entered(o: App, f: App, r: KeyAction) -> bool {
    if o.alternate_screen_content != AlternateScreenContent::Main {
        r is Nothing && f == (App { alternate_screen_content: AlternateScreenContent::Main, ..o })
    } else if o.show_popup {
        r is Nothing && f == (App { show_popup: false, popup_scroll: 0, ..o })
    } else {
        match o.spec_selected() {
            Some(i) => {
                &&& runs(r, up_args(o.target@, o.compose_content.services@[i as int]@, o.compose_content.modifiers.bits))
                &&& same_except_state(without_error(o), f)
                &&& f.compose_content.start_queued@ == spec_queue(o.compose_content.start_queued@, i, o.name_of(i))
                &&& f.compose_content.stop_queued@ == o.compose_content.stop_queued@
                &&& f.compose_content.logs@ == o.compose_content.logs@
            },
            None => r is Nothing && unchanged_state(without_error(o), o, f),
        }
    }
}

/// `s`: take the selected service down and queue its stop.
pub open spec fn stopped_one(o: App, f: App, r: KeyAction) -> bool {
    match o.spec_selected() {
        Some(i) => {
            &&& runs(r, down_args(o.target@, o.compose_content.services@[i as int]@))
            &&& same_except_state(without_error(o), f)
            &&& f.compose_content.stop_queued@ == spec_queue(o.compose_content.stop_queued@, i, o.name_of(i))
            &&& f.compose_content.start_queued@ == o.compose_content.start_queued@
            &&& f.compose_content.logs@ == o.compose_content.logs@
        },
        None => r is Nothing && unchanged_state(without_error(o), o, f),
    }
}

/// `a` and `x`: bring every service up and queue every start, or take
/// every service down and queue every stop.
pub open spec fn moved_all(o: App, f: App, r: KeyAction, dir: QueueType) -> bool {
    let all = (all_indices(o.services_len as nat), name_entries(o.container_name_mapping));
    &&& same_except_state(without_error(o), f)
    &&& f.compose_content.logs@ == o.compose_content.logs@
    &&& if dir == QueueType::Start {
        &&& runs(r, up_all_args(o.target@, o.compose_content.modifiers.bits))
        &&& f.compose_content.start_queued@ == all
        &&& f.compose_content.stop_queued@ == o.compose_content.stop_queued@
    } else {
        &&& runs(r, down_all_args(o.target@))
        &&& f.compose_content.stop_queued@ == all
        &&& f.compose_content.start_queued@ == o.compose_content.start_queued@
    }
}

/// `r`: restart the selected service, dropping its lines and cancelling
/// its log task, and queue its start.
pub open spec fn restarted_one(o: App, f: App, r: KeyAction) -> bool {
    match o.spec_selected() {
        Some(i) => {
            &&& match r {
                KeyAction::Restart { args, cancelled } => {
                    &&& strings_view(args@) == restart_args(o.target@, o.compose_content.services@[i as int]@)
                    &&& cancelled == o.compose_content.logs@.0[i as int].2
                },
                _ => false,
            }
            &&& same_except_state(without_error(o), f)
            &&& f.compose_content.logs@ == spec_stop(spec_drop_lines(o.compose_content.logs@, i as int), i as int)
            &&& f.compose_content.start_queued@ == spec_queue(o.compose_content.start_queued@, i, o.name_of(i))
            &&& f.compose_content.stop_queued@ == o.compose_content.stop_queued@
        },
        None => r is Nothing && unchanged_state(without_error(o), o, f),
    }
}

/// Control-l: clear the selected service's log at `now` and stream it again
/// from there.
pub open spec fn cleared_log(o: App, f: App, r: KeyAction, now: i64) -> bool {
    &&& same_except_state(o, f)
    &&& f.compose_content.start_queued@ == o.compose_content.start_queued@
    &&& f.compose_content.stop_queued@ == o.compose_content.stop_queued@
    &&& match o.spec_selected() {
        Some(i) => if o.compose_content.logs.next_task < u64::MAX {
            &&& f.compose_content.logs@ == spec_start(spec_clear(o.compose_content.logs@, i as int, now), i as int)
            &&& match r {
                KeyAction::Stream(s) => {
                    &&& s.index == i
                    &&& s.task == o.compose_content.logs.next_task
                    &&& s.container_name@ == o.name_of(i)
                    &&& s.replaced == o.compose_content.logs@.0[i as int].2
                    &&& s.options.since == Some(now)
                },
                _ => false,
            }
        } else {
            r is Nothing && f.compose_content.logs@ == spec_clear(o.compose_content.logs@, i as int, now)
        },
        None => r is Nothing && f.compose_content.logs@ == o.compose_content.logs@,
    }
}

/// Control-w: remove the selected service's container, its log cleared at
/// `now`. Control-alt-w: remove every service's container, the selected
/// service's log cleared at `now` and every log task cancelled.
pub open spec fn removed(o: App, f: App, r: KeyAction, now: i64, every: bool) -> bool {
    &&& same_except_state(o, f)
    &&& f.compose_content.start_queued@ == o.compose_content.start_queued@
    &&& f.compose_content.stop_queued@ == o.compose_content.stop_queued@
    &&& {
        let cleared = match o.spec_selected() {
            Some(i) => spec_clear(o.compose_content.logs@, i as int, now),
            None => o.compose_content.logs@,
        };
        f.compose_content.logs@ == if every { spec_stop_all(cleared) } else { cleared }
    }
    &&& if every {
        match r {
            KeyAction::Remove(names) => {
                &&& names@.len() == o.services_len
                &&& forall|k: int| 0 <= k < o.services_len ==> #[trigger] names@[k]@ == o.name_of(k as usize)
            },
            _ => false,
        }
    } else {
        match o.spec_selected() {
            Some(i) => match r {
                KeyAction::Remove(names) => strings_view(names@) == seq![o.name_of(i)],
                _ => false,
            },
            None => r is Nothing,
        }
    }
}

/// What a character key does, with modifiers `m`.
pub open spec fn char_handled(o: App, f: App, c: char, m: u8, now: i64, r: KeyAction) -> bool {
    if c == 'q' {
        escaped(o, f, r)
    } else if c == 'c' || c == 'C' {
        r is Nothing && f == if m == CONTROL { App { running: false, ..o } } else { o }
    } else if c == 's' {
        stopped_one(o, f, r)
    } else if c == 'f' {
        r is Refresh && f == o
    } else if c == 'a' {
        moved_all(o, f, r, QueueType::Start)
    } else if c == 'x' {
        moved_all(o, f, r, QueueType::Stop)
    } else if c == 'r' {
        restarted_one(o, f, r)
    } else if c == 'l' && m == CONTROL {
        cleared_log(o, f, r, now)
    } else if c == '1' || c == '2' || c == '3' || c == '4' || c == '5' {
        r is Nothing && f == (App {
            compose_content: ComposeList {
                modifiers: DockerModifier { bits: o.compose_content.modifiers.bits ^ flag_of_key(c) },
                ..o.compose_content
            },
            ..o
        })
    } else if c == 'j' {
        r is Nothing && f == after_scroll(o, 1, true)
    } else if c == 'k' {
        r is Nothing && f == after_scroll(o, 1, false)
    } else if c == 'w' && m == CONTROL {
        removed(o, f, r, now, false)
    } else if c == 'w' && m == CONTROL_ALT {
        removed(o, f, r, now, true)
    } else if c == 'h' {
        r is Nothing && f == (App {
            alternate_screen_content: if o.alternate_screen_content != AlternateScreenContent::Help {
                AlternateScreenContent::Help
            } else {
                AlternateScreenContent::Main
            },
            ..o
        })
    } else if c == 'e' {
        r is Nothing && f == (App {
            alternate_screen_content: if o.alternate_screen_content is ContainerDetails {
                AlternateScreenContent::Main
            } else {
                AlternateScreenContent::ContainerDetails(SplitScreen::UpperLeft)
            },
            ..o
        })
    } else {
        r is Nothing && f == o
    }
}

/// Whether key `key` reads the clock: control-l, control-w, control-alt-w.
pub open spec fn needs_clock(key: Key) -> bool {
    key.code == KeyCode::Char('l') && key.modifiers == CONTROL
        || key.code == KeyCode::Char('w') && (key.modifiers == CONTROL || key.modifiers == CONTROL_ALT)
}

/// Whether key `key` reads the clock.
pub fn key_needs_clock(key: Key) -> (r: bool)
    ensures
        r == needs_clock(key),
{
    match key.code {
        KeyCode::Char(c) => c == 'l' && key.modifiers == CONTROL || c == 'w' && (key.modifiers == CONTROL
            || key.modifiers == CONTROL_ALT),
        _ => false,
    }
}

/// What key `key` does to dashboard `o`, giving `f` and asking for `r`,
/// at Unix time `now`.
pub open spec fn key_handled(o: App, f: App, key: Key, now: i64, r: KeyAction) -> bool {
    match key.code {
        KeyCode::Esc => escaped(o, f, r),
        KeyCode::Char(c) => char_handled(o, f, c, key.modifiers, now, r),
        KeyCode::Up => r is Nothing && f == if key.modifiers == SHIFT {
            o.with_selected(Some(0usize))
        } else {
            App {
                vertical_scroll: 0,
                alternate_screen: top_of_panes(),
                ..o.with_selected(selected_above(o.compose_content.selected, o.services_len))
            }
        },
        KeyCode::Down => r is Nothing && f == if key.modifiers == SHIFT {
            o.with_selected(last_service(o.services_len))
        } else {
            App {
                vertical_scroll: 0,
                alternate_screen: top_of_panes(),
                ..o.with_selected(selected_below(o.compose_content.selected, o.services_len))
            }
        },
        KeyCode::Enter => entered(o, f, r),
        KeyCode::Tab => r is Nothing && f == match o.alternate_screen_content {
            AlternateScreenContent::ContainerDetails(p) => App {
                alternate_screen_content: AlternateScreenContent::ContainerDetails(next_pane(p)),
                ..o
            },
            _ => o,
        },
        KeyCode::BackTab => r is Nothing && f == match o.alternate_screen_content {
            AlternateScreenContent::ContainerDetails(p) => App {
                alternate_screen_content: AlternateScreenContent::ContainerDetails(prev_pane(p)),
                ..o
            },
            _ => o,
        },
        KeyCode::PageUp => r is Nothing && f == after_scroll(o, 1, true),
        KeyCode::PageDown => r is Nothing && f == after_scroll(o, 1, false),
        KeyCode::Other => r is Nothing && f == o,
    }
}

impl App {
    /// Escape: close what covers the main screen, else the popup, else quit.
    fn escape(&mut self) -> (r: KeyAction)
        ensures
            escaped(*old(self), *final(self), r),
    {
        if self.alternate_screen_content != AlternateScreenContent::Main {
            self.alternate_screen_content = AlternateScreenContent::Main;
        } else if self.show_popup {
            self.show_popup = false;
            self.reset_popup_scroll();
        } else {
            self.quit();
        }
        KeyAction::Nothing
    }

    /// Enter: close what covers the main screen, else the popup, else bring
    /// the selected service up.
    fn enter(&mut self) -> (r: KeyAction)
        requires
            old(self).wf(),
        ensures
            final(self).wf(),
            entered(*old(self), *final(self), r),
    {
        if self.alternate_screen_content != AlternateScreenContent::Main {
            self.alternate_screen_content = AlternateScreenContent::Main;
            return KeyAction::Nothing;
        }
        if self.show_popup {
            self.show_popup = false;
            self.reset_popup_scroll();
            return KeyAction::Nothing;
        }
        self.clear_latest_error_log();
        match self.dc(true) {
            Some(args) => {
                self.queue(QueueType::Start);
                KeyAction::Run(args)
            },
            None => KeyAction::Nothing,
        }
    }

    /// Take the selected service down.
    fn stop_selected(&mut self) -> (r: KeyAction)
        requires
            old(self).wf(),
        ensures
            final(self).wf(),
            stopped_one(*old(self), *final(self), r),
    {
        self.clear_latest_error_log();
        match self.dc(false) {
            Some(args) => {
                self.queue(QueueType::Stop);
                KeyAction::Run(args)
            },
            None => KeyAction::Nothing,
        }
    }

    /// Bring every service up, or take every service down.
    fn move_all(&mut self, dir: QueueType) -> (r: KeyAction)
        requires
            old(self).wf(),
        ensures
            final(self).wf(),
            moved_all(*old(self), *final(self), r, dir),
    {
        self.clear_latest_error_log();
        let args = match dir {
            QueueType::Start => self.all(),
            QueueType::Stop => self.down_all(),
        };
        self.queue_all(dir);
        KeyAction::Run(args)
    }

    /// Restart the selected service.
    fn restart_selected(&mut self) -> (r: KeyAction)
        requires
            old(self).wf(),
        ensures
            final(self).wf(),
            restarted_one(*old(self), *final(self), r),
    {
        self.clear_latest_error_log();
        match self.restart() {
            Some((args, cancelled)) => {
                self.queue(QueueType::Start);
                KeyAction::Restart { args, cancelled }
            },
            None => KeyAction::Nothing,
        }
    }

    /// Clear the selected service's log at `now`.
    fn clear_selected_log(&mut self, now: i64) -> (r: KeyAction)
        requires
            old(self).wf(),
        ensures
            final(self).wf(),
            cleared_log(*old(self), *final(self), r, now),
    {
        match self.clear_log_at(now) {
            Some(s) => KeyAction::Stream(s),
            None => KeyAction::Nothing,
        }
    }

    /// Remove the selected service's container, or every service's.
    fn remove(&mut self, now: i64, every: bool) -> (r: KeyAction)
        requires
            old(self).wf(),
        ensures
            final(self).wf(),
            removed(*old(self), *final(self), r, now, every),
    {
        if every {
            match self.selected_service() {
                Some(i) => {
                    self.compose_content.logs.clear(i, now);
                },
                None => {},
            }
            let names = self.wipe();
            KeyAction::Remove(names)
        } else {
            match self.remove_container(now) {
                Some(name) => {
                    let mut names: Vec<String> = Vec::new();
                    names.push(name);
                    assert(strings_view(names@) =~= seq![old(self).name_of(old(self).spec_selected().unwrap())]);
                    KeyAction::Remove(names)
                },
                None => KeyAction::Nothing,
            }
        }
    }

    /// What character key `c` does with modifiers `m` at Unix time `now`.
    fn handle_char(&mut self, c: char, m: u8, now: i64) -> (r: KeyAction)
        requires
            old(self).wf(),
        ensures
            final(self).wf(),
            char_handled(*old(self), *final(self), c, m, now, r),
    {
        if c == 'q' {
            self.escape()
        } else if c == 'c' || c == 'C' {
            if m == CONTROL {
                self.quit();
            }
            KeyAction::Nothing
        } else if c == 's' {
            self.stop_selected()
        } else if c == 'f' {
            KeyAction::Refresh
        } else if c == 'a' {
            self.move_all(QueueType::Start)
        } else if c == 'x' {
            self.move_all(QueueType::Stop)
        } else if c == 'r' {
            self.restart_selected()
        } else if c == 'l' && m == CONTROL {
            self.clear_selected_log(now)
        } else if c == '1' || c == '2' || c == '3' || c == '4' || c == '5' {
            self.toggle_modifier(c);
            KeyAction::Nothing
        } else if c == 'j' {
            self.scroll(1, true);
            KeyAction::Nothing
        } else if c == 'k' {
            self.scroll(1, false);
            KeyAction::Nothing
        } else if c == 'w' && m == CONTROL {
            self.remove(now, false)
        } else if c == 'w' && m == CONTROL_ALT {
            self.remove(now, true)
        } else if c == 'h' {
            if self.alternate_screen_content != AlternateScreenContent::Help {
                self.alternate_screen_content = AlternateScreenContent::Help;
            } else {
                self.alternate_screen_content = AlternateScreenContent::Main;
            }
            KeyAction::Nothing
        } else if c == 'e' {
            if let AlternateScreenContent::ContainerDetails(_) = self.alternate_screen_content {
                self.alternate_screen_content = AlternateScreenContent::Main;
            } else {
                self.alternate_screen_content = AlternateScreenContent::ContainerDetails(SplitScreen::UpperLeft);
            }
            KeyAction::Nothing
        } else {
            KeyAction::Nothing
        }
    }

    /// Handles key `key` at Unix time `now`: changes the dashboard and says
    /// what outside work is to follow.
    pub fn handle_key_at(&mut self, key: Key, now: i64) -> (r: KeyAction)
        requires
            old(self).wf(),
        ensures
            final(self).wf(),
            key_handled(*old(self), *final(self), key, now, r),
    {
        match key.code {
            KeyCode::Esc => self.escape(),
            KeyCode::Char(c) => self.handle_char(c, key.modifiers, now),
            KeyCode::Up => {
                if key.modifiers == SHIFT {
                    self.up_first();
                } else {
                    self.up();
                    self.reset_scroll();
                }
                KeyAction::Nothing
            },
            KeyCode::Down => {
                if key.modifiers == SHIFT {
                    self.down_last();
                } else {
                    self.down();
                    self.reset_scroll();
                }
                KeyAction::Nothing
            },
            KeyCode::Enter => self.enter(),
            KeyCode::Tab => {
                if let AlternateScreenContent::ContainerDetails(p) = self.alternate_screen_content {
                    self.alternate_screen_content = AlternateScreenContent::ContainerDetails(p.transition());
                }
                KeyAction::Nothing
            },
            KeyCode::BackTab => {
                if let AlternateScreenContent::ContainerDetails(p) = self.alternate_screen_content {
                    self.alternate_screen_content = AlternateScreenContent::ContainerDetails(p.transition_back());
                }
                KeyAction::Nothing
            },
            KeyCode::PageUp => {
                self.scroll(1, true);
                KeyAction::Nothing
            },
            KeyCode::PageDown => {
                self.scroll(1, false);
                KeyAction::Nothing
            },
            KeyCode::Other => KeyAction::Nothing,
        }
    }

    /// Handles key `key` now: as `handle_key_at` at the current Unix time.
    /// When the system clock cannot be read, a key that needs it (control-l,
    /// control-w, control-alt-w) changes nothing and asks for nothing.
    pub fn handle_key_events(&mut self, key: Key) -> (r: KeyAction)
        requires
            old(self).wf(),
        ensures
            final(self).wf(),
            (exists|now: i64| key_handled(*old(self), *final(self), key, now, r))
                || (needs_clock(key) && r is Nothing && *final(self) == *old(self)),
    {
        let clock = unix_now();
        match clock {
            Some(now) => self.handle_key_at(key, now),
            None => {
                if key_needs_clock(key) {
                    KeyAction::Nothing
                } else {
                    let r = self.handle_key_at(key, 0);
                    r
                }
            },
        }
    }

    /// Handles a mouse event: the wheel scrolls what is in front by five
    /// lines.
    pub fn handle_mouse_events(&mut self, kind: MouseKind)
        ensures
            *final(self) == match kind {
                MouseKind::ScrollUp => after_scroll(*old(self), 5, true),
                MouseKind::ScrollDown => after_scroll(*old(self), 5, false),
                MouseKind::Other => *old(self),
            },
    {
        match kind {
            MouseKind::ScrollUp => self.scroll(5, true),
            MouseKind::ScrollDown => self.scroll(5, false),
            MouseKind::Other => {},
        }
    }
}

} // verus!
