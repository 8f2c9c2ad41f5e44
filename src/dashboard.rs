//! The dashboard's state and the decisions behind each operator action: the
//! selection, the queues, the log streams, and the orchestrator command an
//! action turns into. The program that owns an `App` runs the commands and
//! the streams and hands their outcomes back.
use crate::logs::{spec_clear, spec_drop_lines, spec_start, spec_stop, spec_stop_all, LogSupervisor, StreamStart};
use crate::modifier::{flag_of_key, modifier_args, strs_view, DockerModifier};
use crate::name_map::{name_entries, name_map_get};
use crate::queue::{all_indices, names_of, spec_queue, spec_reconcile, QueueType, Queued};
use crate::registry::{container_name_mapping, running_names, spec_registry, without_leading_slashes, ServiceSpec};
use crate::screen::{scroll_position, scrolled, scrolled_panes, AlternateScreen, AlternateScreenContent};
use bollard::models::ContainerInspectResponse;
use indexmap::IndexMap;
use vstd::prelude::*;

verus! {

/// bollard's `ContainerInspectResponse`, carried through unread.
#[verifier::external_type_specification]
#[verifier::external_body]
pub struct ExContainerInspectResponse(ContainerInspectResponse);

/// Relies on jiff's `Timestamp::try_from(SystemTime)` on std's
/// `SystemTime::now`, then `Timestamp::duration_since` and
/// `SignedDuration::as_secs`: the whole seconds from the Unix epoch to now,
/// or `None` when the system clock lies outside the range jiff can hold.
/// Nothing is known of the value.
#[verifier::external_body]
pub(crate) fn unix_now() -> (r: Option<i64>) {
    jiff::Timestamp::try_from(std::time::SystemTime::now())
        .ok()
        .map(|t| t.duration_since(jiff::Timestamp::UNIX_EPOCH).as_secs())
}

/// What a finished orchestrator command reports back.
#[derive(Debug)]
pub enum DockerEvent {
    /// The live state is to be read again.
    Refresh,
    /// The command failed with this message.
    ErrorLog(String),
}

/// The views of a list of strings.
pub open spec fn strings_view(v: Seq<String>) -> Seq<Seq<char>> {
    v.map_values(|s: String| s@)
}

/// The arguments every orchestrator command starts with.
pub open spec fn compose_prefix(target: Seq<char>) -> Seq<Seq<char>> {
    seq!["compose"@, "-f"@, target]
}

/// Bring up one service, detached, with the modifier arguments.
pub open spec fn up_args(target: Seq<char>, key: Seq<char>, bits: u8) -> Seq<Seq<char>> {
    compose_prefix(target) + seq!["up"@, key, "-d"@] + modifier_args(bits)
}

/// Take down one service.
pub open spec fn down_args(target: Seq<char>, key: Seq<char>) -> Seq<Seq<char>> {
    compose_prefix(target) + seq!["down"@, key]
}

/// Bring up every service, detached, with the modifier arguments.
pub open spec fn up_all_args(target: Seq<char>, bits: u8) -> Seq<Seq<char>> {
    compose_prefix(target) + seq!["up"@, "-d"@] + modifier_args(bits)
}

/// Take down every service.
pub open spec fn down_all_args(target: Seq<char>) -> Seq<Seq<char>> {
    compose_prefix(target) + seq!["down"@]
}

/// Restart one service.
pub open spec fn restart_args(target: Seq<char>, key: Seq<char>) -> Seq<Seq<char>> {
    compose_prefix(target) + seq!["restart"@, key]
}

/// Messages joined into one, a line each.
pub open spec fn joined_lines(msgs: Seq<Seq<char>>) -> Seq<char>
    decreases msgs.len(),
{
    if msgs.len() == 0 {
        Seq::empty()
    } else if msgs.len() == 1 {
        msgs[0]
    } else {
        joined_lines(msgs.drop_last()) + "\n"@ + msgs.last()
    }
}

/// The last service, if there is one.
pub open spec fn last_service(n: usize) -> Option<usize> {
    if n > 0 {
        Some((n - 1) as usize)
    } else {
        None
    }
}

/// The selection after moving up: one service up, stopping at the first;
/// from no selection, the last service.
pub open spec fn selected_above(sel: Option<usize>, n: usize) -> Option<usize> {
    match sel {
        Some(i) => Some(if i > 0 { (i - 1) as usize } else { 0 }),
        None => last_service(n),
    }
}

/// The selection after moving down: one service down, staying on the last.
pub open spec fn selected_below(sel: Option<usize>, n: usize) -> Option<usize> {
    match sel {
        Some(i) => {
            let last = if n > 0 { n - 1 } else { 0 };
            Some(if i >= last { last as usize } else { (i + 1) as usize })
        },
        None => None,
    }
}

/// Every details pane at the top.
pub open spec fn top_of_panes() -> AlternateScreen {
    AlternateScreen { upper_left_scroll: 0, upper_right_scroll: 0, lower_left_scroll: 0, lower_right_scroll: 0 }
}

/// The dashboard after scrolling what is in front by `amount` lines.
pub open spec fn after_scroll(o: App, amount: usize, up: bool) -> App {
    if o.show_popup {
        App { popup_scroll: scrolled(o.popup_scroll, amount, up), ..o }
    } else {
        match o.alternate_screen_content {
            AlternateScreenContent::ContainerDetails(pane) => App {
                alternate_screen: scrolled_panes(o.alternate_screen, pane, amount, up),
                ..o
            },
            _ => App { vertical_scroll: scrolled(o.vertical_scroll, amount, up), ..o },
        }
    }
}

/// `f` is `e` but for its queues and log streams.
pub open spec fn same_except_state(e: App, f: App) -> bool {
    (App {
        compose_content: ComposeList {
            start_queued: f.compose_content.start_queued,
            stop_queued: f.compose_content.stop_queued,
            logs: f.compose_content.logs,
            ..e.compose_content
        },
        ..e
    }) == f
}

/// Clearing the selected service's log of `o` at Unix time `now` gives
/// `f` and the stream start `r`: its lines are dropped, it resumes at
/// `now` under a fresh task that replaces the live one, and nothing else
/// changes.
pub open spec fn log_cleared(o: App, f: App, r: Option<StreamStart>, now: i64) -> bool {
    &&& same_except_state(o, f)
    &&& f.compose_content.start_queued@ == o.compose_content.start_queued@
    &&& f.compose_content.stop_queued@ == o.compose_content.stop_queued@
    &&& match o.spec_selected() {
        Some(i) => if o.compose_content.logs.next_task < u64::MAX {
            let s = r.unwrap();
            &&& r.is_some()
            &&& f.compose_content.logs@ == spec_start(spec_clear(o.compose_content.logs@, i as int, now), i as int)
            &&& s.index == i
            &&& s.task == o.compose_content.logs.next_task
            &&& s.container_name@ == o.name_of(i)
            &&& s.replaced == o.compose_content.logs@.0[i as int].2
            &&& s.options.since == Some(now)
        } else {
            &&& r.is_none()
            &&& f.compose_content.logs@ == spec_clear(o.compose_content.logs@, i as int, now)
        },
        None => r.is_none() && f.compose_content.logs@ == o.compose_content.logs@,
    }
}

/// The compose project as the dashboard shows and drives it.
pub struct ComposeList {
    /// The service keys of the manifest, in order.
    pub services: Vec<String>,
    /// The highlighted service, if any.
    pub selected: Option<usize>,
    /// Services queued to start.
    pub start_queued: Queued,
    /// Services queued to stop.
    pub stop_queued: Queued,
    /// The modifiers for bringing services up.
    pub modifiers: DockerModifier,
    /// The log streams, one per service.
    pub logs: LogSupervisor,
    /// The error shown in the popup.
    pub error_msg: Option<String>,
}

/// The dashboard.
pub struct App {
    /// The compose project's name.
    pub project_name: String,
    /// Whether the dashboard keeps running.
    pub running: bool,
    /// The project's services and what is queued for them.
    pub compose_content: ComposeList,
    /// The names of the running containers, as last observed.
    pub running_container_names: Vec<String>,
    /// The compose file the orchestrator is pointed at.
    pub target: String,
    /// Whether the error popup is shown.
    pub show_popup: bool,
    /// The scroll position of the popup.
    pub popup_scroll: usize,
    /// The scroll position of the main list.
    pub vertical_scroll: usize,
    /// The container name of each service, by index.
    pub container_name_mapping: IndexMap<usize, String>,
    /// The last inspection of each service's container, by index; `None`
    /// when unknown.
    pub container_info: Vec<Option<ContainerInspectResponse>>,
    /// The full path of the compose file.
    pub full_path: String,
    /// The version of the container engine.
    pub docker_version: String,
    /// What covers the main screen.
    pub alternate_screen_content: AlternateScreenContent,
    /// The scroll positions of the details panes.
    pub alternate_screen: AlternateScreen,
    /// The number of services.
    pub services_len: usize,
}

impl App {
    /// The services, the registry, the queues and the log streams agree on
    /// the number of services.
    pub open spec fn wf(&self) -> bool {
        &&& self.compose_content.services@.len() == self.services_len
        &&& forall|k: usize| #[trigger] name_entries(self.container_name_mapping).contains_key(k) <==> k < self.services_len
        &&& self.compose_content.start_queued.wf()
        &&& self.compose_content.stop_queued.wf()
        &&& self.compose_content.logs.wf()
        &&& self.compose_content.logs@.0.len() == self.services_len
    }

    /// The container name of service `i`.
    pub open spec fn name_of(&self, i: usize) -> Seq<char> {
        name_entries(self.container_name_mapping)[i]
    }

    /// The selected service, when the selection is on one.
    pub open spec fn spec_selected(&self) -> Option<usize> {
        match self.compose_content.selected {
            Some(i) => if i < self.services_len { Some(i) } else { None },
            None => None,
        }
    }

    /// This dashboard with the selection moved to `sel`.
    pub open spec fn with_selected(self, sel: Option<usize>) -> App {
        App { compose_content: ComposeList { selected: sel, ..self.compose_content }, ..self }
    }

    /// The queue of direction `dir`.
    pub open spec fn queue_of(&self, dir: QueueType) -> Queued {
        match dir {
            QueueType::Start => self.compose_content.start_queued,
            QueueType::Stop => self.compose_content.stop_queued,
        }
    }

    /// A dashboard for `services`, in manifest order, of project
    /// `project_name`, with the first service selected and nothing queued.
    pub fn new(
        project_name: String,
        services: Vec<ServiceSpec>,
        running_container_names: Vec<String>,
        target: String,
        full_path: String,
        docker_version: String,
    ) -> (r: App)
        ensures
            r.wf(),
            r.services_len == services@.len(),
            name_entries(r.container_name_mapping) == spec_registry(project_name@, services@),
            forall|k: int| 0 <= k < services@.len() ==> #[trigger] r.compose_content.services@[k]@ == services@[k].name@,
            r.compose_content.selected == Some(0usize),
            r.compose_content.start_queued@.0.len() == 0,
            r.compose_content.stop_queued@.0.len() == 0,
            r.compose_content.modifiers.bits == 0,
            r.compose_content.error_msg.is_none(),
            r.running,
            !r.show_popup,
            r.alternate_screen_content == AlternateScreenContent::Main,
            r.project_name@ == project_name@,
            r.running_container_names@ == running_container_names@,
    {
        let mapping = container_name_mapping(project_name.as_str(), &services);
        let n = services.len();
        let mut keys: Vec<String> = Vec::new();
        let mut i: usize = 0;
        while i < n
            invariant
                n == services@.len(),
                i <= n,
                keys@.len() == i,
                forall|k: int| 0 <= k < i ==> #[trigger] keys@[k]@ == services@[k].name@,
            decreases n - i,
        {
            keys.push(services[i].name.clone());
            i = i + 1;
        }
        App {
            project_name,
            running: true,
            compose_content: ComposeList {
                services: keys,
                selected: Some(0),
                start_queued: Queued::new(),
                stop_queued: Queued::new(),
                modifiers: DockerModifier::empty(),
                logs: LogSupervisor::new(n),
                error_msg: None,
            },
            running_container_names,
            target,
            show_popup: false,
            popup_scroll: 0,
            vertical_scroll: 0,
            container_name_mapping: mapping,
            container_info: Vec::new(),
            full_path,
            docker_version,
            alternate_screen_content: AlternateScreenContent::Main,
            alternate_screen: AlternateScreen::new(),
            services_len: n,
        }
    }

    /// The selected service, when the selection is on one.
    pub fn selected_service(&self) -> (r: Option<usize>)
        ensures
            r == self.spec_selected(),
    {
        match self.compose_content.selected {
            Some(i) => if i < self.services_len { Some(i) } else { None },
            None => None,
        }
    }

    /// The container name of service `i`.
    pub fn container_name(&self, i: usize) -> (r: String)
        requires
            self.wf(),
            i < self.services_len,
        ensures
            r@ == self.name_of(i),
    {
        match name_map_get(&self.container_name_mapping, i) {
            Some(n) => n.clone(),
            None => String::new(),
        }
    }

    /// Stops the dashboard.
    pub fn quit(&mut self)
        ensures
            *final(self) == (App { running: false, ..*old(self) }),
    {
        self.running = false;
    }

    /// Handles a timer tick; nothing changes.
    pub fn tick(&self) {
    }

    /// Keeps `error` for the popup.
    pub fn set_error_log(&mut self, error: String)
        ensures
            *final(self) == (App {
                compose_content: ComposeList { error_msg: Some(error), ..old(self).compose_content },
                ..*old(self)
            }),
    {
        self.compose_content.error_msg = Some(error);
    }

    /// Drops the error kept for the popup.
    pub fn clear_latest_error_log(&mut self)
        ensures
            *final(self) == (App {
                compose_content: ComposeList { error_msg: None, ..old(self).compose_content },
                ..*old(self)
            }),
    {
        self.compose_content.error_msg = None;
    }

    /// Flips the modifier that digit key `c` stands for.
    pub fn toggle_modifier(&mut self, c: char)
        ensures
            *final(self) == (App {
                compose_content: ComposeList {
                    modifiers: DockerModifier { bits: old(self).compose_content.modifiers.bits ^ flag_of_key(c) },
                    ..old(self).compose_content
                },
                ..*old(self)
            }),
    {
        self.compose_content.modifiers.toggle_key(c);
    }

    /// Moves the selection up one service; with nothing selected, selects
    /// the last service.
    pub fn up(&mut self)
        ensures
            *final(self) == old(self).with_selected(selected_above(old(self).compose_content.selected, old(self).services_len)),
    {
        self.compose_content.selected = match self.compose_content.selected {
            Some(i) => Some(i.saturating_sub(1)),
            None => if self.services_len > 0 {
                Some(self.services_len - 1)
            } else {
                None
            },
        };
    }

    /// Selects the first service.
    pub fn up_first(&mut self)
        ensures
            *final(self) == old(self).with_selected(Some(0usize)),
    {
        self.compose_content.selected = Some(0);
    }

    /// Moves the selection down one service, staying on the last one.
    pub fn down(&mut self)
        ensures
            *final(self) == old(self).with_selected(selected_below(old(self).compose_content.selected, old(self).services_len)),
    {
        let last = self.services_len.saturating_sub(1);
        match self.compose_content.selected {
            Some(i) => {
                if i >= last {
                    self.compose_content.selected = Some(last);
                } else {
                    self.compose_content.selected = Some(i + 1);
                }
            },
            None => {},
        }
    }

    /// Selects the last service.
    pub fn down_last(&mut self)
        ensures
            *final(self) == old(self).with_selected(last_service(old(self).services_len)),
    {
        self.compose_content.selected = if self.services_len > 0 {
            Some(self.services_len - 1)
        } else {
            None
        };
    }

    /// Moves the main list and every details pane back to the top.
    pub fn reset_scroll(&mut self)
        ensures
            *final(self) == (App { vertical_scroll: 0, alternate_screen: top_of_panes(), ..*old(self) }),
    {
        self.vertical_scroll = 0;
        self.alternate_screen.reset_scrolls();
    }

    /// Moves the popup back to the top.
    pub fn reset_popup_scroll(&mut self)
        ensures
            *final(self) == (App { popup_scroll: 0, ..*old(self) }),
    {
        self.popup_scroll = 0;
    }

    /// Scrolls what is in front by `amount` lines, towards the top when
    /// `up`: the popup if shown, else the focused details pane if the
    /// details are shown, else the main list.
    pub fn scroll(&mut self, amount: usize, up: bool)
        ensures
            *final(self) == after_scroll(*old(self), amount, up),
    {
        if self.show_popup {
            self.popup_scroll = scroll_position(self.popup_scroll, amount, up);
        } else {
            match self.alternate_screen_content {
                AlternateScreenContent::ContainerDetails(pane) => {
                    self.alternate_screen.scroll(pane, amount, up);
                },
                _ => {
                    self.vertical_scroll = scroll_position(self.vertical_scroll, amount, up);
                },
            }
        }
    }

    /// Queues service `idx` in direction `dir` under its container name.
    /// Nothing changes when `idx` is not a service.
    pub fn queue_index(&mut self, dir: QueueType, idx: usize)
        requires
            old(self).wf(),
        ensures
            same_except_state(*old(self), *final(self)),
            final(self).wf(),
            final(self).container_name_mapping == old(self).container_name_mapping,
            final(self).services_len == old(self).services_len,
            final(self).compose_content.logs == old(self).compose_content.logs,
            idx < old(self).services_len ==> final(self).queue_of(dir)@ == spec_queue(
                old(self).queue_of(dir)@,
                idx,
                old(self).name_of(idx),
            ),
            idx >= old(self).services_len ==> final(self).queue_of(dir)@ == old(self).queue_of(dir)@,
            dir == QueueType::Start ==> final(self).compose_content.stop_queued@ == old(self).compose_content.stop_queued@,
            dir == QueueType::Stop ==> final(self).compose_content.start_queued@ == old(self).compose_content.start_queued@,
    {
        if idx >= self.services_len {
            return;
        }
        let name = self.container_name(idx);
        match dir {
            QueueType::Start => self.compose_content.start_queued.queue(idx, name),
            QueueType::Stop => self.compose_content.stop_queued.queue(idx, name),
        }
    }

    /// Queues the selected service in direction `dir`. Nothing changes
    /// when no service is selected.
    pub fn queue(&mut self, dir: QueueType)
        requires
            old(self).wf(),
        ensures
            same_except_state(*old(self), *final(self)),
            final(self).wf(),
            final(self).compose_content.logs == old(self).compose_content.logs,
            match old(self).spec_selected() {
                Some(i) => final(self).queue_of(dir)@ == spec_queue(old(self).queue_of(dir)@, i, old(self).name_of(i)),
                None => final(self).queue_of(dir)@ == old(self).queue_of(dir)@,
            },
            dir == QueueType::Start ==> final(self).compose_content.stop_queued@ == old(self).compose_content.stop_queued@,
            dir == QueueType::Stop ==> final(self).compose_content.start_queued@ == old(self).compose_content.start_queued@,
    {
        match self.selected_service() {
            Some(i) => self.queue_index(dir, i),
            None => {},
        }
    }

    /// Queues every service in direction `dir`, replacing what was queued
    /// in that direction.
    pub fn queue_all(&mut self, dir: QueueType)
        requires
            old(self).wf(),
        ensures
            same_except_state(*old(self), *final(self)),
            final(self).wf(),
            final(self).compose_content.logs == old(self).compose_content.logs,
            final(self).queue_of(dir)@ == (all_indices(old(self).services_len as nat), name_entries(old(self).container_name_mapping)),
            forall|i: usize| #[trigger] final(self).queue_of(dir)@.0.contains(i) <==> i < old(self).services_len,
            dir == QueueType::Start ==> final(self).compose_content.stop_queued@ == old(self).compose_content.stop_queued@,
            dir == QueueType::Stop ==> final(self).compose_content.start_queued@ == old(self).compose_content.start_queued@,
    {
        let n = self.services_len;
        match dir {
            QueueType::Start => self.compose_content.start_queued.queue_all(&self.container_name_mapping, n),
            QueueType::Stop => self.compose_content.stop_queued.queue_all(&self.container_name_mapping, n),
        }
    }

    /// Drops every queued start.
    pub fn clear_starting(&mut self)
        requires
            old(self).wf(),
        ensures
            same_except_state(*old(self), *final(self)),
            final(self).wf(),
            final(self).compose_content.start_queued@.0.len() == 0,
            final(self).compose_content.start_queued@.1.dom().len() == 0,
            final(self).compose_content.stop_queued@ == old(self).compose_content.stop_queued@,
    {
        self.compose_content.start_queued.clear();
    }
}

/// The arguments every orchestrator command starts with, for `target`.
fn compose_command(target: &String) -> (r: Vec<String>)
    ensures
        strings_view(r@) == compose_prefix(target@),
{
    let mut r: Vec<String> = Vec::new();
    r.push(String::from_str("compose"));
    r.push(String::from_str("-f"));
    r.push(target.clone());
    assert(strings_view(r@) =~= compose_prefix(target@));
    r
}

/// Appends `extra` to `args`.
fn push_all(args: &mut Vec<String>, extra: &Vec<&'static str>)
    ensures
        strings_view(final(args)@) == strings_view(old(args)@) + strs_view(extra@),
{
    let ghost a0 = strings_view(args@);
    let mut i: usize = 0;
    while i < extra.len()
        invariant
            i <= extra@.len(),
            strings_view(args@) == a0 + strs_view(extra@).take(i as int),
        decreases extra@.len() - i,
    {
        assert(strs_view(extra@)[i as int] == extra@[i as int]@);
        assert(strs_view(extra@).take(i + 1) =~= strs_view(extra@).take(i as int).push(extra@[i as int]@));
        let ghost before = strings_view(args@);
        args.push(String::from_str(extra[i]));
        assert(strings_view(args@) =~= before.push(extra@[i as int]@));
        i = i + 1;
    }
    assert(strs_view(extra@).take(i as int) =~= strs_view(extra@));
}

/// Appends `s` to `args`.
fn push_str(args: &mut Vec<String>, s: &str)
    ensures
        strings_view(final(args)@) == strings_view(old(args)@).push(s@),
{
    let ghost a0 = strings_view(args@);
    args.push(String::from_str(s));
    assert(strings_view(args@) =~= a0.push(s@));
}

/// The message reporting the failures of removing every container: one
/// line per failure, or `None` when nothing failed.
pub fn wipe_errors(errors: &Vec<String>) -> (r: Option<String>)
    ensures
        errors@.len() == 0 <==> r.is_none(),
        r.is_some() ==> r.unwrap()@ == joined_lines(strings_view(errors@)),
{
    if errors.len() == 0 {
        return None;
    }
    let mut msg = errors[0].clone();
    let mut i: usize = 1;
    assert(strings_view(errors@).take(1).drop_last() =~= Seq::<Seq<char>>::empty());
    while i < errors.len()
        invariant
            1 <= i <= errors@.len(),
            msg@ == joined_lines(strings_view(errors@).take(i as int)),
        decreases errors@.len() - i,
    {
        msg.append("\n");
        msg.append(errors[i].as_str());
        i = i + 1;
        let ghost t = strings_view(errors@).take(i as int);
        assert(t.drop_last() =~= strings_view(errors@).take(i - 1));
    }
    assert(strings_view(errors@).take(i as int) =~= strings_view(errors@));
    Some(msg)
}

impl App {
    /// The command that brings the selected service up (`up`) or takes it
    /// down; `None` when no service is selected.
    pub fn dc(&self, up: bool) -> (r: Option<Vec<String>>)
        requires
            self.wf(),
        ensures
            r.is_some() <==> self.spec_selected().is_some(),
            r.is_some() ==> {
                let i = self.spec_selected().unwrap();
                let key = self.compose_content.services@[i as int]@;
                strings_view(r.unwrap()@) == if up {
                    up_args(self.target@, key, self.compose_content.modifiers.bits)
                } else {
                    down_args(self.target@, key)
                }
            },
    {
        let i = match self.selected_service() {
            Some(i) => i,
            None => return None,
        };
        let key = &self.compose_content.services[i];
        let mut args = compose_command(&self.target);
        if up {
            push_str(&mut args, "up");
            push_str(&mut args, key.as_str());
            push_str(&mut args, "-d");
            let extra = self.compose_content.modifiers.to_args();
            push_all(&mut args, &extra);
            assert(strings_view(args@) =~= up_args(self.target@, key@, self.compose_content.modifiers.bits));
        } else {
            push_str(&mut args, "down");
            push_str(&mut args, key.as_str());
            assert(strings_view(args@) =~= down_args(self.target@, key@));
        }
        Some(args)
    }

    /// The command that brings every service up.
    pub fn all(&self) -> (r: Vec<String>)
        ensures
            strings_view(r@) == up_all_args(self.target@, self.compose_content.modifiers.bits),
    {
        let mut args = compose_command(&self.target);
        push_str(&mut args, "up");
        push_str(&mut args, "-d");
        let extra = self.compose_content.modifiers.to_args();
        push_all(&mut args, &extra);
        assert(strings_view(args@) =~= up_all_args(self.target@, self.compose_content.modifiers.bits));
        args
    }

    /// The command that takes every service down.
    pub fn down_all(&self) -> (r: Vec<String>)
        ensures
            strings_view(r@) == down_all_args(self.target@),
    {
        let mut args = compose_command(&self.target);
        push_str(&mut args, "down");
        assert(strings_view(args@) =~= down_all_args(self.target@));
        args
    }

    /// The command that restarts the selected service. The service's lines
    /// are dropped and its live log task, returned beside the command, is
    /// cancelled. `None`, with nothing changed, when no service is selected.
    pub fn restart(&mut self) -> (r: Option<(Vec<String>, Option<u64>)>)
        requires
            old(self).wf(),
        ensures
            same_except_state(*old(self), *final(self)),
            final(self).wf(),
            r.is_some() <==> old(self).spec_selected().is_some(),
            match old(self).spec_selected() {
                Some(i) => {
                    &&& strings_view(r.unwrap().0@) == restart_args(
                        old(self).target@,
                        old(self).compose_content.services@[i as int]@,
                    )
                    &&& r.unwrap().1 == old(self).compose_content.logs@.0[i as int].2
                    &&& final(self).compose_content.logs@ == spec_stop(
                        spec_drop_lines(old(self).compose_content.logs@, i as int),
                        i as int,
                    )
                },
                None => final(self).compose_content.logs@ == old(self).compose_content.logs@,
            },
            final(self).compose_content.start_queued@ == old(self).compose_content.start_queued@,
            final(self).compose_content.stop_queued@ == old(self).compose_content.stop_queued@,
    {
        let i = match self.selected_service() {
            Some(i) => i,
            None => return None,
        };
        self.compose_content.logs.drop_lines(i);
        let cancelled = self.compose_content.logs.stop(i);
        let mut args = compose_command(&self.target);
        push_str(&mut args, "restart");
        push_str(&mut args, self.compose_content.services[i].as_str());
        assert(strings_view(args@) =~= restart_args(self.target@, self.compose_content.services@[i as int]@));
        Some((args, cancelled))
    }

    /// The container to remove for the selected service. The service's log
    /// is cleared at Unix time `now` and its live task cancelled. `None`,
    /// with nothing changed, when no service is selected.
    pub fn remove_container(&mut self, now: i64) -> (r: Option<String>)
        requires
            old(self).wf(),
        ensures
            same_except_state(*old(self), *final(self)),
            final(self).wf(),
            final(self).compose_content.start_queued@ == old(self).compose_content.start_queued@,
            final(self).compose_content.stop_queued@ == old(self).compose_content.stop_queued@,
            r.is_some() <==> old(self).spec_selected().is_some(),
            match old(self).spec_selected() {
                Some(i) => {
                    &&& r.unwrap()@ == old(self).name_of(i)
                    &&& final(self).compose_content.logs@ == spec_clear(old(self).compose_content.logs@, i as int, now)
                },
                None => final(self).compose_content.logs@ == old(self).compose_content.logs@,
            },
    {
        let i = match self.selected_service() {
            Some(i) => i,
            None => return None,
        };
        self.compose_content.logs.clear(i, now);
        Some(self.container_name(i))
    }

    /// The container of every service, in order.
    pub fn container_names(&self) -> (r: Vec<String>)
        requires
            self.wf(),
        ensures
            r@.len() == self.services_len,
            forall|k: int| 0 <= k < self.services_len ==> #[trigger] r@[k]@ == self.name_of(k as usize),
    {
        let mut r: Vec<String> = Vec::new();
        let mut i: usize = 0;
        while i < self.services_len
            invariant
                self.wf(),
                i <= self.services_len,
                r@.len() == i,
                forall|k: int| 0 <= k < i ==> #[trigger] r@[k]@ == self.name_of(k as usize),
            decreases self.services_len - i,
        {
            r.push(self.container_name(i));
            i = i + 1;
        }
        r
    }

    /// The containers to remove when wiping the project: every service's,
    /// in order. Every live log task is cancelled.
    pub fn wipe(&mut self) -> (r: Vec<String>)
        requires
            old(self).wf(),
        ensures
            same_except_state(*old(self), *final(self)),
            final(self).wf(),
            final(self).compose_content.start_queued@ == old(self).compose_content.start_queued@,
            final(self).compose_content.stop_queued@ == old(self).compose_content.stop_queued@,
            final(self).compose_content.logs@ == spec_stop_all(old(self).compose_content.logs@),
            r@.len() == old(self).services_len,
            forall|k: int| 0 <= k < old(self).services_len ==> #[trigger] r@[k]@ == old(self).name_of(k as usize),
    {
        self.compose_content.logs.stop_all();
        self.container_names()
    }

    /// Handles what a finished orchestrator command reports. A failure is
    /// kept for the popup, shown, and clears every queued start, since the
    /// start did not happen; queued stops stay. Returns whether the live
    /// state is to be read again.
    pub fn on_docker_event(&mut self, event: DockerEvent) -> (r: bool)
        requires
            old(self).wf(),
        ensures
            final(self).wf(),
            final(self).compose_content.stop_queued@ == old(self).compose_content.stop_queued@,
            match event {
                DockerEvent::Refresh => {
                    &&& r
                    &&& final(self).compose_content.start_queued@ == old(self).compose_content.start_queued@
                    &&& final(self).compose_content.error_msg == old(self).compose_content.error_msg
                    &&& final(self).show_popup == old(self).show_popup
                },
                DockerEvent::ErrorLog(msg) => {
                    &&& !r
                    &&& final(self).compose_content.error_msg == Some(msg)
                    &&& final(self).show_popup
                    &&& final(self).compose_content.start_queued@.0.len() == 0
                    &&& final(self).compose_content.start_queued@.1.dom().len() == 0
                },
            },
    {
        match event {
            DockerEvent::Refresh => true,
            DockerEvent::ErrorLog(msg) => {
                self.clear_starting();
                self.compose_content.error_msg = Some(msg);
                self.show_popup = true;
                false
            },
        }
    }

    /// Keeps the inspection of each service's container: `results[i]` is
    /// the outcome for service `i`, and a failure leaves it unknown.
    pub fn fetch_all_container_info<E>(&mut self, results: Vec<Result<ContainerInspectResponse, E>>)
        requires
            results@.len() == old(self).services_len,
        ensures
            final(self).container_info@.len() == results@.len(),
            forall|k: int| 0 <= k < results@.len() ==> #[trigger] final(self).container_info@[k] == match results@[k] {
                Ok(info) => Some(info),
                Err(_) => None,
            },
            final(self).compose_content == old(self).compose_content,
            final(self).services_len == old(self).services_len,
            final(self).container_name_mapping == old(self).container_name_mapping,
    {
        let ghost all = results@;
        let mut rest = results;
        let mut infos: Vec<Option<ContainerInspectResponse>> = Vec::new();
        while rest.len() > 0
            invariant
                infos@.len() + rest@.len() == all.len(),
                rest@ == all.subrange(infos@.len() as int, all.len() as int),
                forall|k: int| 0 <= k < infos@.len() ==> #[trigger] infos@[k] == match all[k] {
                    Ok(info) => Some(info),
                    Err(_) => None,
                },
            decreases rest@.len(),
        {
            let ghost n = infos@.len();
            let first = rest.remove(0);
            assert(first == all[n as int]);
            match first {
                Ok(info) => infos.push(Some(info)),
                Err(_) => infos.push(None),
            }
            assert(rest@ =~= all.subrange(infos@.len() as int, all.len() as int));
        }
        self.container_info = infos;
    }

    /// The last inspection of service `i`'s container, if known.
    pub fn info(&self, i: usize) -> (r: Option<&ContainerInspectResponse>)
        ensures
            r == (if i < self.container_info@.len() {
                match self.container_info@[i as int] {
                    Some(info) => Some(&info),
                    None => None,
                }
            } else {
                None
            }),
    {
        if i < self.container_info.len() {
            match &self.container_info[i] {
                Some(info) => Some(info),
                None => None,
            }
        } else {
            None
        }
    }
}

/// The streams of `before` after the first `count` of them were started
/// again, in order, on fresh task ids.
pub open spec fn streams_restarted(before: crate::logs::SupervisorView, after: crate::logs::SupervisorView, count: int) -> bool {
    &&& after.0.len() == before.0.len()
    &&& after.1 == before.1 + count
    &&& forall|k: int| 0 <= k < before.0.len() ==> #[trigger] after.0[k] == if k < count {
        (before.0[k].0, before.0[k].1, Some((before.1 + k) as u64))
    } else {
        before.0[k]
    }
}

/// `starts[k]` starts stream `k` on the container name of service `k`,
/// under the `k`th fresh id, resuming where stream `k` of `before` would.
pub open spec fn starts_in_order(
    before: crate::logs::SupervisorView,
    names: Map<usize, Seq<char>>,
    starts: Seq<StreamStart>,
) -> bool {
    forall|k: int| 0 <= k < starts.len() ==> {
        &&& (#[trigger] starts[k]).index == k
        &&& starts[k].task == before.1 + k
        &&& starts[k].container_name@ == names[k as usize]
        &&& starts[k].replaced == before.0[k].2
        &&& starts[k].options.since == before.0[k].1
    }
}

impl App {
    /// Starts a log stream for every service, in order, replacing the live
    /// ones. Stops early only when the task ids run out.
    pub fn start_all_log_streaming(&mut self) -> (r: Vec<StreamStart>)
        requires
            old(self).wf(),
        ensures
            same_except_state(*old(self), *final(self)),
            final(self).wf(),
            r@.len() <= old(self).services_len,
            r@.len() < old(self).services_len ==> final(self).compose_content.logs.next_task == u64::MAX,
            streams_restarted(old(self).compose_content.logs@, final(self).compose_content.logs@, r@.len() as int),
            starts_in_order(old(self).compose_content.logs@, name_entries(old(self).container_name_mapping), r@),
            final(self).compose_content.start_queued@ == old(self).compose_content.start_queued@,
            final(self).compose_content.stop_queued@ == old(self).compose_content.stop_queued@,
            final(self).container_name_mapping == old(self).container_name_mapping,
            final(self).services_len == old(self).services_len,
            final(self).running_container_names@ == old(self).running_container_names@,
    {
        let ghost v0 = self.compose_content.logs@;
        let mut r: Vec<StreamStart> = Vec::new();
        let mut i: usize = 0;
        while i < self.services_len
            invariant
                self.wf(),
                i <= self.services_len,
                r@.len() == i,
                same_except_state(*old(self), *self),
                self.container_name_mapping == old(self).container_name_mapping,
                self.services_len == old(self).services_len,
                self.running_container_names@ == old(self).running_container_names@,
                self.compose_content.start_queued@ == old(self).compose_content.start_queued@,
                self.compose_content.stop_queued@ == old(self).compose_content.stop_queued@,
                v0 == old(self).compose_content.logs@,
                streams_restarted(v0, self.compose_content.logs@, i as int),
                starts_in_order(v0, name_entries(self.container_name_mapping), r@),
            ensures
                i < self.services_len ==> self.compose_content.logs.next_task == u64::MAX,
            decreases self.services_len - i,
        {
            let name = self.container_name(i);
            let ghost before = self.compose_content.logs@;
            match self.compose_content.logs.start_stream(i, name) {
                Some(s) => {
                    r.push(s);
                },
                None => {
                    break;
                },
            }
            i = i + 1;
            assert(streams_restarted(v0, self.compose_content.logs@, i as int)) by {
                assert forall|k: int| 0 <= k < v0.0.len() implies #[trigger] self.compose_content.logs@.0[k] == if k < i {
                    (v0.0[k].0, v0.0[k].1, Some((v0.1 + k) as u64))
                } else {
                    v0.0[k]
                } by {
                    assert(before.0[k] == if k < i - 1 {
                        (v0.0[k].0, v0.0[k].1, Some((v0.1 + k) as u64))
                    } else {
                        v0.0[k]
                    });
                }
            }
            assert(starts_in_order(v0, name_entries(self.container_name_mapping), r@)) by {
                assert forall|k: int| 0 <= k < r@.len() implies {
                    &&& (#[trigger] r@[k]).index == k
                    &&& r@[k].task == v0.1 + k
                    &&& r@[k].container_name@ == name_entries(self.container_name_mapping)[k as usize]
                    &&& r@[k].replaced == v0.0[k].2
                    &&& r@[k].options.since == v0.0[k].1
                } by {
                    if k == i - 1 {
                        assert(before.0[k] == v0.0[k]);
                    }
                }
            }
        }
        r
    }

    /// Starts the selected service's log stream again, replacing the live
    /// one. `None`, with nothing changed, when no service is selected or
    /// the task ids are used up.
    pub fn restart_log_streaming(&mut self) -> (r: Option<StreamStart>)
        requires
            old(self).wf(),
        ensures
            same_except_state(*old(self), *final(self)),
            final(self).wf(),
            r.is_some() <==> old(self).spec_selected().is_some() && old(self).compose_content.logs.next_task < u64::MAX,
            r.is_none() ==> final(self).compose_content.logs@ == old(self).compose_content.logs@,
            r.is_some() ==> {
                let i = old(self).spec_selected().unwrap();
                let s = r.unwrap();
                &&& final(self).compose_content.logs@ == spec_start(old(self).compose_content.logs@, i as int)
                &&& s.index == i
                &&& s.task == old(self).compose_content.logs.next_task
                &&& s.container_name@ == old(self).name_of(i)
                &&& s.replaced == old(self).compose_content.logs@.0[i as int].2
                &&& s.options.since == old(self).compose_content.logs@.0[i as int].1
            },
            final(self).compose_content.start_queued@ == old(self).compose_content.start_queued@,
            final(self).compose_content.stop_queued@ == old(self).compose_content.stop_queued@,
    {
        let i = match self.selected_service() {
            Some(i) => i,
            None => return None,
        };
        let name = self.container_name(i);
        self.compose_content.logs.start_stream(i, name)
    }

    /// Clears the selected service's log at Unix time `now`: its lines are
    /// dropped and its stream is started again from `now`, the live task
    /// being replaced. `None` when no service is selected, or when the
    /// task ids are used up (the lines are dropped all the same).
    pub fn clear_log_at(&mut self, now: i64) -> (r: Option<StreamStart>)
        requires
            old(self).wf(),
        ensures
            final(self).wf(),
            log_cleared(*old(self), *final(self), r, now),
    {
        let i = match self.selected_service() {
            Some(i) => i,
            None => return None,
        };
        let name = self.container_name(i);
        let cancelled = self.compose_content.logs.clear(i, now);
        match self.compose_content.logs.start_stream(i, name) {
            Some(s) => Some(StreamStart { replaced: cancelled, ..s }),
            None => None,
        }
    }

    /// Clears the selected service's log now: as `clear_log_at` at the
    /// current Unix time. Nothing changes, and `None` is returned, when the
    /// system clock cannot be read.
    pub fn clear_current_log(&mut self) -> (r: Option<StreamStart>)
        requires
            old(self).wf(),
        ensures
            final(self).wf(),
            (exists|now: i64| log_cleared(*old(self), *final(self), r, now))
                || (r.is_none() && *final(self) == *old(self)),
    {
        match unix_now() {
            Some(now) => self.clear_log_at(now),
            None => None,
        }
    }

    /// Takes in the names of the running containers as the engine lists
    /// them: records them without their leading `/`, clears the queued
    /// intent they show satisfied, then starts every log stream again.
    pub fn refresh(&mut self, listed: &Vec<String>) -> (r: Vec<StreamStart>)
        requires
            old(self).wf(),
        ensures
            final(self).wf(),
            final(self).running_container_names@.len() == listed@.len(),
            forall|k: int| 0 <= k < listed@.len() ==> #[trigger] final(self).running_container_names@[k]@
                == without_leading_slashes(listed@[k]@),
            final(self).compose_content.start_queued@ == spec_reconcile(
                old(self).compose_content.start_queued@,
                names_of(final(self).running_container_names@),
                QueueType::Start,
            ),
            final(self).compose_content.stop_queued@ == spec_reconcile(
                old(self).compose_content.stop_queued@,
                names_of(final(self).running_container_names@),
                QueueType::Stop,
            ),
            r@.len() <= old(self).services_len,
            r@.len() < old(self).services_len ==> final(self).compose_content.logs.next_task == u64::MAX,
            streams_restarted(old(self).compose_content.logs@, final(self).compose_content.logs@, r@.len() as int),
            starts_in_order(old(self).compose_content.logs@, name_entries(old(self).container_name_mapping), r@),
    {
        let running = running_names(listed);
        self.compose_content.start_queued.reconcile(&running, QueueType::Start);
        self.compose_content.stop_queued.reconcile(&running, QueueType::Stop);
        self.running_container_names = running;
        self.start_all_log_streaming()
    }
}

/// A name the engine lists with one leading `/` is recorded as the
/// container name itself, when that name does not start with `/`.
pub proof fn lemma_listed_name_matches(listed: Seq<Seq<char>>, running: Seq<Seq<char>>, name: Seq<char>)
    requires
        running.len() == listed.len(),
        forall|k: int| 0 <= k < listed.len() ==> #[trigger] running[k] == without_leading_slashes(listed[k]),
        listed.contains(seq!['/'] + name),
        name.len() == 0 || name[0] != '/',
    ensures
        running.contains(name),
{
    let k = choose|k: int| 0 <= k < listed.len() && listed[k] == seq!['/'] + name;
    let l = seq!['/'] + name;
    assert(l.drop_first() =~= name);
    assert(without_leading_slashes(l) == without_leading_slashes(name));
    assert(running[k] == name);
}

/// A refresh whose listing shows a queued start's container, with the
/// engine's leading `/`, clears that start.
pub proof fn lemma_refresh_clears_started(
    q: crate::queue::QueueView,
    idx: usize,
    name: Seq<char>,
    listed: Seq<Seq<char>>,
    running: Seq<Seq<char>>,
)
    requires
        crate::queue::queue_wf(q),
        running.len() == listed.len(),
        forall|k: int| 0 <= k < listed.len() ==> #[trigger] running[k] == without_leading_slashes(listed[k]),
        listed.contains(seq!['/'] + name),
        name.len() == 0 || name[0] != '/',
    ensures
        !spec_reconcile(spec_queue(q, idx, name), running, QueueType::Start).0.contains(idx),
{
    lemma_listed_name_matches(listed, running, name);
    crate::queue::lemma_started_service_leaves_queue(q, idx, name, running);
}

/// A refresh whose listing still shows a queued stop's container, with the
/// engine's leading `/`, keeps that stop.
pub proof fn lemma_refresh_keeps_stopping(
    q: crate::queue::QueueView,
    idx: usize,
    name: Seq<char>,
    listed: Seq<Seq<char>>,
    running: Seq<Seq<char>>,
)
    requires
        crate::queue::queue_wf(q),
        running.len() == listed.len(),
        forall|k: int| 0 <= k < listed.len() ==> #[trigger] running[k] == without_leading_slashes(listed[k]),
        listed.contains(seq!['/'] + name),
        name.len() == 0 || name[0] != '/',
    ensures
        spec_reconcile(spec_queue(q, idx, name), running, QueueType::Stop).0.contains(idx),
{
    broadcast use vstd::seq_lib::group_filter_ensures;

    lemma_listed_name_matches(listed, running, name);
    let q1 = spec_queue(q, idx, name);
    let keep = crate::queue::stays_queued(q1, running, QueueType::Stop);
    assert(keep(idx));
    assert(q1.0.contains(idx)) by {
        if !q.0.contains(idx) {
            assert(q1.0[q1.0.len() - 1] == idx);
        }
    }
    q1.0.lemma_filter_contains_rev(keep, idx);
}

} // verus!
