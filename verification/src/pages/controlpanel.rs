//! The hierarchical navigation menu: windows of selectable items, a cursor,
//! a committed path of sub-windows, and the actions that selections dispatch.
#![allow(unused_imports)]
use vstd::prelude::*;

use crate::pages::Page;
use crate::tasks::driver_task::DriverEvent;

verus! {

/// An effect bubbled from a selection up to the orchestrator: switch the
/// displayed page, arm a capture session for one controller, or forward a
/// command to the driver task.
#[derive(Debug)]
pub enum ControlResult {
    SetController(String),
    ChangePage(Page),
    DriverChange(DriverEvent),
}

impl Clone for ControlResult {
    /// A clone carries exactly the same effect.
    fn clone(&self) -> (r: Self)
        ensures
            r == *self,
    {
        match self {
            ControlResult::SetController(s) => ControlResult::SetController(s.clone()),
            ControlResult::ChangePage(p) => ControlResult::ChangePage(*p),
            ControlResult::DriverChange(e) => ControlResult::DriverChange(e.clone()),
        }
    }
}

/// An action that needs no input and yields no window.
#[derive(Debug, Clone, Copy)]
pub enum PlainAction {
    /// A placeholder binding that has no effect.
    Greet,
}

/// An action on the selected item that yields an effect but no window.
#[derive(Debug, Clone, Copy)]
pub enum ConfigAction {
    /// Arm a capture session for the controller the item names.
    PickController,
    /// Switch to the page the item names; an unknown name is dropped.
    PickPage,
    /// Forward the port name the item carries to the driver task.
    PickPort,
}

/// An action that rebuilds a sub-window from the enclosing window.
#[derive(Debug, Clone, Copy)]
pub enum WindowToWindowAction {
    /// A sub-window listing the labels of the enclosing window's items.
    MirrorItems,
}

/// An action that builds a sub-window from the selected item alone.
#[derive(Debug, Clone, Copy)]
pub enum ConfigWindowAction {
    /// A sub-window titled by the item's label showing its detail text.
    DetailWindow,
}

/// A fixed sub-window description carried inside a binding: the menu author
/// supplies the title, the item labels, and the effect to report.
#[derive(Debug)]
pub struct PresetWindow {
    pub title: String,
    pub labels: Vec<String>,
    pub result: Option<ControlResult>,
}

/// An action that needs no input and yields a fresh sub-window.
#[derive(Debug)]
pub enum WindowAction {
    /// List the connected controllers, for browsing only.
    ListControllers,
    /// List the connected controllers as selectable entries.
    SelectController,
    /// List the selectable pages.
    ListPages,
    /// List the serial ports as selectable entries.
    ListPorts,
    /// Materialize the given fixed sub-window.
    Preset(PresetWindow),
}

/// The binding attached to an item: one of five call shapes, dispatched by
/// pattern matching when the item is selected.
#[derive(Debug)]
pub enum ConfigFnOptions {
    NoneToResult(PlainAction),
    NoneToWindow(WindowAction),
    WindowToWindow(WindowToWindowAction),
    ConfigToNone(ConfigAction),
    ConfigToWindow(ConfigWindowAction),
}

impl Default for ConfigFnOptions {
    /// The default binding does nothing.
    fn default() -> (r: ConfigFnOptions)
        ensures
            r == ConfigFnOptions::NoneToResult(PlainAction::Greet),
    {
        ConfigFnOptions::NoneToResult(PlainAction::Greet)
    }
}

impl ConfigFnOptions {
    /// A binding is well formed when a preset sub-window it carries would fit
    /// a window's cursor.
    pub open spec fn wf(self) -> bool {
        match self {
            ConfigFnOptions::NoneToWindow(WindowAction::Preset(pw)) => pw.labels@.len()
                <= u16::MAX,
            _ => true,
        }
    }
}

/// The hardware catalog a selection may consult: the controller identities
/// and the serial port names the machine offers right now. Enumerating the
/// ports can itself fail; the failure's message is kept, and a port list
/// then comes up empty.
pub struct ActionEnv {
    pub controllers: Vec<String>,
    pub ports: Result<Vec<String>, String>,
}

impl ActionEnv {
    /// The catalog's lists fit a window's cursor.
    pub open spec fn wf(self) -> bool {
        &&& self.controllers@.len() <= u16::MAX
        &&& (self.ports matches Ok(ps) ==> ps@.len() <= u16::MAX)
    }
}

/// What an item displays beside its label: nothing, a toggle, or a
/// materialized sub-window.
#[derive(Debug)]
pub enum ConfigOption {
    Text,
    CheckBox(bool),
    Window(Window),
}

impl Default for ConfigOption {
    /// An item shows plain text by default.
    fn default() -> (r: ConfigOption)
        ensures
            r is Text,
    {
        ConfigOption::Text
    }
}

impl ConfigOption {
    /// A materialized sub-window is itself well formed.
    pub open spec fn wf(self) -> bool
        decreases self,
    {
        match self {
            ConfigOption::Window(w) => w.wf(),
            _ => true,
        }
    }
}

/// One selectable item of a window.
#[derive(Debug)]
#[verifier::ext_equal]
pub struct Config {
    pub short_text: String,
    pub full_text: Option<String>,
    pub option: ConfigOption,
    pub on_select: Option<ConfigFnOptions>,
}

/// An ordered list of items with a cursor, a focus flag, and an optional
/// committed item whose sub-window is the active descendant.
#[derive(Debug)]
#[verifier::ext_equal]
pub struct Window {
    pub name: String,
    pub content: Vec<Config>,
    pub window_selected: bool,
    pub highlighted_content: u16,
    pub selected_content: Option<u16>,
}

impl Config {
    /// Well-formedness: a materialized sub-window is well formed, and so is
    /// the binding.
    pub open spec fn wf(self) -> bool
        decreases self,
    {
        &&& self.option.wf()
        &&& (self.on_select matches Some(b) ==> b.wf())
    }

    /// The text a detail pane shows for this item: the full text where one
    /// was given, else the label.
    pub open spec fn spec_fulltext(self) -> Seq<char> {
        match self.full_text {
            Some(t) => t@,
            None => self.short_text@,
        }
    }

    /// A fresh item with the given label, no detail text, no sub-content and
    /// no binding.
    pub fn new(name: String) -> (r: Config)
        ensures
            r.short_text == name,
            r.full_text is None,
            r.option is Text,
            r.on_select is None,
            r.wf(),
    {
        Config { short_text: name, full_text: None, option: ConfigOption::Text, on_select: None }
    }

    /// Replace the item's content slot.
    pub fn with_configoption(self, option: ConfigOption) -> (r: Config)
        ensures
            r == (Config { option, ..self }),
    {
        Config { option, ..self }
    }

    /// Attach a detail text.
    pub fn with_fulltext(self, full_text: String) -> (r: Config)
        ensures
            r == (Config { full_text: Some(full_text), ..self }),
    {
        Config { full_text: Some(full_text), ..self }
    }

    /// Attach a binding.
    pub fn with_on_select(self, on_select: ConfigFnOptions) -> (r: Config)
        ensures
            r == (Config { on_select: Some(on_select), ..self }),
    {
        Config { on_select: Some(on_select), ..self }
    }

    /// The item's label.
    pub fn get_short_text(&self) -> (r: &str)
        ensures
            r@ == self.short_text@,
    {
        self.short_text.as_str()
    }

    /// The item's detail text, falling back to the label.
    pub fn get_fulltext(&self) -> (r: &str)
        ensures
            r@ == self.spec_fulltext(),
    {
        match &self.full_text {
            Some(string) => string.as_str(),
            None => self.get_short_text(),
        }
    }
}

impl Window {
    /// Well-formedness: the cursor and the committed index lie inside the
    /// item list (the cursor of an empty window rests at 0), the item count
    /// fits the cursor's width, and every item is well formed in turn.
    pub open spec fn wf(self) -> bool
        decreases self,
    {
        &&& self.content@.len() <= u16::MAX
        &&& (self.content@.len() == 0 ==> self.highlighted_content == 0)
        &&& (self.content@.len() > 0 ==> (self.highlighted_content as int) < self.content@.len())
        &&& (self.selected_content matches Some(i) ==> (i as int) < self.content@.len())
        &&& (forall|k: int| 0 <= k < self.content@.len() ==> (#[trigger] self.content@[k]).wf())
    }

    /// The cursor keys reach some window: either this one is focused, or the
    /// committed item holds a sub-window that passes them on.
    pub open spec fn focus_live(self) -> bool
        decreases self,
    {
        ||| self.window_selected
        ||| {
            &&& self.selected_content matches Some(i)
            &&& 0 <= (i as int) < self.content@.len()
            &&& self.content@[i as int].option matches ConfigOption::Window(w) && w.focus_live()
        }
    }

    /// How deep below this window the focused window sits along the
    /// committed chain; 0 when this window is focused itself.
    pub open spec fn focus_depth(self) -> nat
        decreases self,
    {
        if self.window_selected {
            0
        } else {
            match self.selected_content {
                Some(i) => if 0 <= (i as int) < self.content@.len() {
                    match self.content@[i as int].option {
                        ConfigOption::Window(cw) => 1 + cw.focus_depth(),
                        _ => 0,
                    }
                } else {
                    0
                },
                None => 0,
            }
        }
    }

    /// Both windows hold exactly the same state.
    pub open spec fn unchanged(pre: Window, post: Window) -> bool {
        &&& post.name == pre.name
        &&& post.content == pre.content
        &&& post.window_selected == pre.window_selected
        &&& post.highlighted_content == pre.highlighted_content
        &&& post.selected_content == pre.selected_content
    }

    /// The two windows agree everywhere except that the item at index `i`
    /// of `post` holds a (possibly different) sub-window in its content slot.
    pub open spec fn forwards_to(pre: Window, post: Window, i: int) -> bool {
        &&& post.content@.len() == pre.content@.len()
        &&& (forall|k: int|
            0 <= k < pre.content@.len() && k != i ==> post.content@[k] == pre.content@[k])
        &&& post.content@[i].short_text == pre.content@[i].short_text
        &&& post.content@[i].full_text == pre.content@[i].full_text
        &&& post.content@[i].on_select == pre.content@[i].on_select
        &&& post.content@[i].option is Window
        &&& post.name == pre.name
        &&& post.window_selected == pre.window_selected
        &&& post.highlighted_content == pre.highlighted_content
        &&& post.selected_content == pre.selected_content
    }

    /// Where the cursor lands after one forward step.
    pub open spec fn next_cursor(c: u16, len: nat) -> u16
        recommends
            0 < len <= u16::MAX,
            (c as nat) < len,
    {
        (((c as nat) + 1) % len) as u16
    }

    /// Where the cursor lands after one backward step.
    pub open spec fn prev_cursor(c: u16, len: nat) -> u16
        recommends
            len <= u16::MAX,
            (c as nat) < len || (len == 0 && c == 0),
    {
        if c == 0 {
            if len == 0 {
                0
            } else {
                (len - 1) as u16
            }
        } else {
            (c - 1) as u16
        }
    }

    /// How one forward cursor step relates the window before the call to the
    /// window after it: the focused window's cursor advances cyclically and
    /// everything else is untouched; an unfocused window passes the step down
    /// the committed chain.
    pub open spec fn cursor_step_rel(pre: Window, post: Window) -> bool
        decreases pre,
    {
        if pre.window_selected && pre.content@.len() > 0 {
            &&& post.highlighted_content == Self::next_cursor(
                pre.highlighted_content,
                pre.content@.len(),
            )
            &&& post.name == pre.name
            &&& post.content == pre.content
            &&& post.window_selected == pre.window_selected
            &&& post.selected_content == pre.selected_content
        } else {
            match pre.selected_content {
                Some(i) => {
                    if 0 <= (i as int) < pre.content@.len() {
                        match pre.content@[i as int].option {
                            ConfigOption::Window(cw) => {
                                &&& Self::forwards_to(pre, post, i as int)
                                &&& Self::cursor_step_rel(
                                    cw,
                                    post.content@[i as int].option->Window_0,
                                )
                            },
                            _ => Self::unchanged(pre, post),
                        }
                    } else {
                        Self::unchanged(pre, post)
                    }
                },
                None => Self::unchanged(pre, post),
            }
        }
    }

    /// The backward counterpart of [`Window::cursor_step_rel`]; the focused
    /// window's cursor retreats cyclically even when the window is empty
    /// (where it rests at 0).
    pub open spec fn cursor_back_rel(pre: Window, post: Window) -> bool
        decreases pre,
    {
        if pre.window_selected {
            &&& post.highlighted_content == Self::prev_cursor(
                pre.highlighted_content,
                pre.content@.len(),
            )
            &&& post.name == pre.name
            &&& post.content == pre.content
            &&& post.window_selected == pre.window_selected
            &&& post.selected_content == pre.selected_content
        } else {
            match pre.selected_content {
                Some(i) => {
                    if 0 <= (i as int) < pre.content@.len() {
                        match pre.content@[i as int].option {
                            ConfigOption::Window(cw) => {
                                &&& Self::forwards_to(pre, post, i as int)
                                &&& Self::cursor_back_rel(
                                    cw,
                                    post.content@[i as int].option->Window_0,
                                )
                            },
                            _ => Self::unchanged(pre, post),
                        }
                    } else {
                        Self::unchanged(pre, post)
                    }
                },
                None => Self::unchanged(pre, post),
            }
        }
    }

    /// A fresh, empty, unfocused window with the given title.
    pub fn new(name: String) -> (r: Window)
        ensures
            r.name == name,
            r.content@.len() == 0,
            r.window_selected == false,
            r.highlighted_content == 0,
            r.selected_content is None,
            r.wf(),
            r.focus_depth() == 0,
    {
        Window {
            name,
            content: Vec::new(),
            window_selected: false,
            highlighted_content: 0,
            selected_content: None,
        }
    }

    /// Fill a freshly built window with its items.
    pub fn with_configs(self, configs: Vec<Config>) -> (r: Window)
        requires
            configs@.len() <= u16::MAX,
            forall|k: int| 0 <= k < configs@.len() ==> (#[trigger] configs@[k]).wf(),
            self.highlighted_content == 0,
            self.selected_content is None,
        ensures
            r == (Window { content: configs, ..self }),
            r.wf(),
    {
        Window { content: configs, ..self }
    }

    /// Mark a freshly built window as the focused one.
    pub fn as_selected(self) -> (r: Window)
        ensures
            r == (Window { window_selected: true, ..self }),
    {
        Window { window_selected: true, ..self }
    }

    /// Move the cursor of the focused window one item forward, wrapping at
    /// the end; on a window that is not focused the step is forwarded down
    /// the committed chain of sub-windows.
    pub fn next_item(&mut self)
        requires
            old(self).wf(),
            old(self).focus_live(),
        ensures
            final(self).wf(),
            final(self).focus_live(),
            Self::cursor_step_rel(*old(self), *final(self)),
        decreases *old(self),
    {
        if self.window_selected && self.content.len() != 0 {
            let len = self.content.len() as u16;
            self.highlighted_content = (self.highlighted_content + 1) % len;
        } else {
            if let Some(sc) = self.selected_content {
                match &mut self.content[sc as usize].option {
                    ConfigOption::Window(w) => {
                        w.next_item();
                    },
                    _ => {
                        proof {
                            assert(false);
                        }
                    },
                }
            }
        }
    }

    /// Move the cursor of the focused window one item backward, wrapping at
    /// the start; forwarded down the committed chain like [`Window::next_item`].
    pub fn previous_item(&mut self)
        requires
            old(self).wf(),
            old(self).focus_live(),
        ensures
            final(self).wf(),
            final(self).focus_live(),
            Self::cursor_back_rel(*old(self), *final(self)),
        decreases *old(self),
    {
        if self.window_selected {
            if self.highlighted_content == 0 {
                let l = self.content.len();
                self.highlighted_content = if l == 0 {
                    0u16
                } else {
                    (l - 1) as u16
                };
            } else {
                self.highlighted_content = self.highlighted_content - 1;
            }
        } else {
            if let Some(sc) = self.selected_content {
                match &mut self.content[sc as usize].option {
                    ConfigOption::Window(w) => {
                        w.previous_item();
                    },
                    _ => {
                        proof {
                            assert(false);
                        }
                    },
                }
            }
        }
    }
}


/// The binding a generated list item carries: a selection action wrapped in
/// the item-to-result shape, or nothing.
pub open spec fn binding_of(action: Option<ConfigAction>) -> Option<ConfigFnOptions> {
    match action {
        Some(a) => Some(ConfigFnOptions::ConfigToNone(a)),
        None => None,
    }
}

/// A freshly generated, unfocused list window: the given title, one plain
/// item per label, each carrying the given binding.
pub open spec fn plain_label_window(
    w: Window,
    title: Seq<char>,
    labels: Seq<Seq<char>>,
    action: Option<ConfigAction>,
) -> bool {
    &&& w.name@ == title
    &&& w.content@.len() == labels.len()
    &&& (forall|k: int|
        0 <= k < labels.len() ==> {
            &&& (#[trigger] w.content@[k]).short_text@ == labels[k]
            &&& w.content@[k].full_text is None
            &&& w.content@[k].option is Text
            &&& w.content@[k].on_select == binding_of(action)
        })
    &&& !w.window_selected
    &&& w.highlighted_content == 0
    &&& w.selected_content is None
}

/// What an input-free, window-free action reports.
pub open spec fn plain_result(a: PlainAction) -> Option<ControlResult> {
    match a {
        PlainAction::Greet => None,
    }
}

/// What an item-to-result action reports for the given item.
pub open spec fn config_action_result(a: ConfigAction, c: Config) -> Option<ControlResult> {
    match a {
        ConfigAction::PickController => Some(ControlResult::SetController(c.short_text)),
        ConfigAction::PickPage => match crate::pages::page_of_name(c.short_text@) {
            Some(p) => Some(ControlResult::ChangePage(p)),
            None => None,
        },
        ConfigAction::PickPort => Some(
            ControlResult::DriverChange(DriverEvent::SetPort(c.short_text)),
        ),
    }
}

/// What a window-producing action yields against the given hardware catalog:
/// the window installed and the effect reported.
pub open spec fn window_action_post(
    a: WindowAction,
    env: ActionEnv,
    w: Window,
    r: Option<ControlResult>,
) -> bool {
    match a {
        WindowAction::ListControllers => plain_label_window(
            w,
            "Controllers"@,
            env.controllers.deep_view(),
            None,
        ) && r is None,
        WindowAction::SelectController => plain_label_window(
            w,
            "Controllers"@,
            env.controllers.deep_view(),
            Some(ConfigAction::PickController),
        ) && r is None,
        WindowAction::ListPages => plain_label_window(
            w,
            "Available Pages"@,
            crate::pages::page_names(),
            Some(ConfigAction::PickPage),
        ) && r is None,
        WindowAction::ListPorts => match env.ports {
            Ok(ps) => plain_label_window(
                w,
                "Available ports"@,
                ps.deep_view(),
                Some(ConfigAction::PickPort),
            ) && r is None,
            Err(_) => plain_label_window(w, "Available ports"@, Seq::empty(), None) && r is None,
        },
        WindowAction::Preset(pw) => plain_label_window(w, pw.title@, pw.labels.deep_view(), None)
            && r == pw.result,
    }
}

/// What a window-to-window action yields for the given enclosing window.
pub open spec fn mirror_post(
    a: WindowToWindowAction,
    src: Window,
    w: Window,
    r: Option<ControlResult>,
) -> bool {
    match a {
        WindowToWindowAction::MirrorItems => {
            &&& plain_label_window(
                w,
                src.name@,
                src.content@.map_values(|c: Config| c.short_text@),
                None,
            )
            &&& r is None
        },
    }
}

/// What an item-to-window action yields for the given item.
pub open spec fn detail_post(
    a: ConfigWindowAction,
    c: Config,
    w: Window,
    r: Option<ControlResult>,
) -> bool {
    match a {
        ConfigWindowAction::DetailWindow => {
            &&& plain_label_window(w, c.short_text@, seq![c.spec_fulltext()], None)
            &&& r is None
        },
    }
}

/// Build an unfocused list window with one plain item per label, each item
/// carrying the given selection action.
pub fn build_label_window(title: String, labels: &Vec<String>, action: Option<ConfigAction>) -> (w:
    Window)
    requires
        labels@.len() <= u16::MAX,
    ensures
        plain_label_window(w, title@, labels.deep_view(), action),
        w.wf(),
{
    let mut content: Vec<Config> = Vec::new();
    let mut k: usize = 0;
    while k < labels.len()
        invariant
            k <= labels@.len(),
            labels@.len() <= u16::MAX,
            content@.len() == k,
            forall|j: int|
                0 <= j < k as int ==> {
                    &&& (#[trigger] content@[j]).short_text@ == labels.deep_view()[j]
                    &&& content@[j].full_text is None
                    &&& content@[j].option is Text
                    &&& content@[j].on_select == binding_of(action)
                    &&& content@[j].wf()
                },
        decreases labels@.len() - k,
    {
        let label = labels[k].clone();
        let c = match action {
            Some(a) => Config::new(label).with_on_select(ConfigFnOptions::ConfigToNone(a)),
            None => Config::new(label),
        };
        content.push(c);
        k = k + 1;
    }
    Window::new(title).with_configs(content)
}

/// Run an input-free, window-free binding.
pub fn run_plain(a: &PlainAction) -> (r: Option<ControlResult>)
    ensures
        r == plain_result(*a),
{
    match a {
        PlainAction::Greet => None,
    }
}

/// Run an item-to-result binding against the given item.
pub fn run_config_action(a: &ConfigAction, c: &Config) -> (r: Option<ControlResult>)
    ensures
        r == config_action_result(*a, *c),
{
    match a {
        ConfigAction::PickController => Some(ControlResult::SetController(c.short_text.clone())),
        ConfigAction::PickPage => match Page::from_name(c.get_short_text()) {
            Some(p) => Some(ControlResult::ChangePage(p)),
            None => None,
        },
        ConfigAction::PickPort => Some(
            ControlResult::DriverChange(DriverEvent::SetPort(c.short_text.clone())),
        ),
    }
}

/// Run a window-producing binding against the hardware catalog.
pub fn run_window_action(a: &WindowAction, env: &ActionEnv) -> (out: (
    Window,
    Option<ControlResult>,
))
    requires
        env.wf(),
        (*a matches WindowAction::Preset(pw) ==> pw.labels@.len() <= u16::MAX),
    ensures
        window_action_post(*a, *env, out.0, out.1),
        out.0.wf(),
{
    match a {
        WindowAction::ListControllers => (
            build_label_window("Controllers".to_owned(), &env.controllers, None),
            None,
        ),
        WindowAction::SelectController => (
            build_label_window(
                "Controllers".to_owned(),
                &env.controllers,
                Some(ConfigAction::PickController),
            ),
            None,
        ),
        WindowAction::ListPages => {
            let names = crate::pages::page_name_list();
            (
                build_label_window(
                    "Available Pages".to_owned(),
                    &names,
                    Some(ConfigAction::PickPage),
                ),
                None,
            )
        },
        WindowAction::ListPorts => match &env.ports {
            Ok(ps) => (
                build_label_window("Available ports".to_owned(), ps, Some(ConfigAction::PickPort)),
                None,
            ),
            Err(_) => {
                let empty: Vec<String> = Vec::new();
                let w = build_label_window("Available ports".to_owned(), &empty, None);
                proof {
                    assert(empty.deep_view() =~= Seq::<Seq<char>>::empty());
                }
                (w, None)
            },
        },
        WindowAction::Preset(pw) => {
            let r = match &pw.result {
                Some(cr) => Some(cr.clone()),
                None => None,
            };
            (build_label_window(pw.title.clone(), &pw.labels, None), r)
        },
    }
}

/// Run a window-to-window binding against the enclosing window.
pub fn run_window_to_window(a: &WindowToWindowAction, src: &Window) -> (out: (
    Window,
    Option<ControlResult>,
))
    requires
        src.wf(),
    ensures
        mirror_post(*a, *src, out.0, out.1),
        out.0.wf(),
{
    match a {
        WindowToWindowAction::MirrorItems => {
            let mut labels: Vec<String> = Vec::new();
            let mut k: usize = 0;
            while k < src.content.len()
                invariant
                    k <= src.content@.len(),
                    labels@.len() == k,
                    forall|j: int|
                        0 <= j < k as int ==> (#[trigger] labels@[j])@
                            == src.content@[j].short_text@,
                decreases src.content@.len() - k,
            {
                labels.push(src.content[k].short_text.clone());
                k = k + 1;
            }
            let w = build_label_window(src.name.clone(), &labels, None);
            proof {
                assert(labels.deep_view() =~= src.content@.map_values(|c: Config| c.short_text@));
            }
            (w, None)
        },
    }
}

/// Run an item-to-window binding against the given item.
pub fn run_config_window_action(a: &ConfigWindowAction, c: &Config) -> (out: (
    Window,
    Option<ControlResult>,
))
    ensures
        detail_post(*a, *c, out.0, out.1),
        out.0.wf(),
{
    match a {
        ConfigWindowAction::DetailWindow => {
            let mut labels: Vec<String> = Vec::new();
            labels.push(c.get_fulltext().to_owned());
            let w = build_label_window(c.short_text.clone(), &labels, None);
            proof {
                assert(labels.deep_view() =~= seq![c.spec_fulltext()]);
            }
            (w, None)
        },
    }
}


impl Window {
    /// The two windows agree everywhere except that `post` has committed to
    /// the cursor item.
    pub open spec fn committed_keep(pre: Window, post: Window) -> bool {
        let i = pre.highlighted_content as int;
        &&& post.content@.len() == pre.content@.len()
        &&& (forall|k: int|
            0 <= k < pre.content@.len() && k != i ==> post.content@[k] == pre.content@[k])
        &&& post.content@[i].short_text == pre.content@[i].short_text
        &&& post.content@[i].full_text == pre.content@[i].full_text
        &&& post.content@[i].on_select == pre.content@[i].on_select
        &&& post.content@[i].option == pre.content@[i].option
        &&& post.name == pre.name
        &&& post.window_selected == pre.window_selected
        &&& post.highlighted_content == pre.highlighted_content
        &&& post.selected_content == Some(pre.highlighted_content)
    }

    /// The two windows agree everywhere except that `post` has committed to
    /// the cursor item and that item's content slot now holds a sub-window.
    pub open spec fn committed_install(pre: Window, post: Window) -> bool {
        let i = pre.highlighted_content as int;
        &&& post.content@.len() == pre.content@.len()
        &&& (forall|k: int|
            0 <= k < pre.content@.len() && k != i ==> post.content@[k] == pre.content@[k])
        &&& post.content@[i].short_text == pre.content@[i].short_text
        &&& post.content@[i].full_text == pre.content@[i].full_text
        &&& post.content@[i].on_select == pre.content@[i].on_select
        &&& post.content@[i].option is Window
        &&& post.name == pre.name
        &&& post.window_selected == pre.window_selected
        &&& post.highlighted_content == pre.highlighted_content
        &&& post.selected_content == Some(pre.highlighted_content)
    }

    /// How one selection relates the window before the call, the hardware
    /// catalog, the window after the call, and the reported effect. The
    /// focused window commits to its cursor item and dispatches that item's
    /// binding; produced sub-windows are installed in the item's content
    /// slot. An unfocused window passes the selection down the committed
    /// chain.
    pub open spec fn select_rel(
        pre: Window,
        env: ActionEnv,
        post: Window,
        r: Option<ControlResult>,
    ) -> bool
        decreases pre,
    {
        if pre.window_selected {
            if pre.content@.len() == 0 {
                Self::unchanged(pre, post) && r is None
            } else {
                let i = pre.highlighted_content as int;
                match pre.content@[i].on_select {
                    None => Self::committed_keep(pre, post) && r is None,
                    Some(b) => match b {
                        ConfigFnOptions::NoneToResult(a) => Self::committed_keep(pre, post) && r
                            == plain_result(a),
                        ConfigFnOptions::NoneToWindow(wa) => {
                            &&& Self::committed_install(pre, post)
                            &&& window_action_post(
                                wa,
                                env,
                                post.content@[i].option->Window_0,
                                r,
                            )
                        },
                        ConfigFnOptions::WindowToWindow(wwa) => {
                            &&& Self::committed_install(pre, post)
                            &&& mirror_post(wwa, pre, post.content@[i].option->Window_0, r)
                        },
                        ConfigFnOptions::ConfigToNone(ca) => Self::committed_keep(pre, post) && r
                            == config_action_result(ca, pre.content@[i]),
                        ConfigFnOptions::ConfigToWindow(cwa) => {
                            &&& Self::committed_install(pre, post)
                            &&& detail_post(
                                cwa,
                                pre.content@[i],
                                post.content@[i].option->Window_0,
                                r,
                            )
                        },
                    },
                }
            }
        } else {
            match pre.selected_content {
                Some(i) => {
                    if 0 <= (i as int) < pre.content@.len() {
                        match pre.content@[i as int].option {
                            ConfigOption::Window(cw) => {
                                &&& Self::forwards_to(pre, post, i as int)
                                &&& Self::select_rel(
                                    cw,
                                    env,
                                    post.content@[i as int].option->Window_0,
                                    r,
                                )
                            },
                            _ => Self::unchanged(pre, post) && r is None,
                        }
                    } else {
                        Self::unchanged(pre, post) && r is None
                    }
                },
                None => Self::unchanged(pre, post) && r is None,
            }
        }
    }

    /// Commit the focused window's selection to its cursor item, dispatch the
    /// item's binding against the hardware catalog, install a produced
    /// sub-window in the item's content slot, and report the binding's
    /// effect upward. On a window that is not focused the selection is
    /// forwarded down the committed chain.
    pub fn select(&mut self, env: &ActionEnv) -> (r: Option<ControlResult>)
        requires
            old(self).wf(),
            old(self).focus_live(),
            env.wf(),
        ensures
            final(self).wf(),
            final(self).focus_live(),
            Self::select_rel(*old(self), *env, *final(self), r),
        decreases *old(self),
    {
        if self.window_selected {
            if self.content.len() == 0 {
                return None;
            }
            let sc = self.highlighted_content;
            self.selected_content = Some(sc);
            let binding = self.content[sc as usize].on_select.take();
            let mut produced: Option<Window> = None;
            let r: Option<ControlResult> = match &binding {
                None => None,
                Some(ConfigFnOptions::NoneToResult(a)) => run_plain(a),
                Some(ConfigFnOptions::NoneToWindow(wa)) => {
                    let (w, rr) = run_window_action(wa, env);
                    produced = Some(w);
                    rr
                },
                Some(ConfigFnOptions::WindowToWindow(wwa)) => {
                    let (w, rr) = run_window_to_window(wwa, &*self);
                    produced = Some(w);
                    rr
                },
                Some(ConfigFnOptions::ConfigToNone(ca)) => run_config_action(
                    ca,
                    &self.content[sc as usize],
                ),
                Some(ConfigFnOptions::ConfigToWindow(cwa)) => {
                    let (w, rr) = run_config_window_action(cwa, &self.content[sc as usize]);
                    produced = Some(w);
                    rr
                },
            };
            let item = &mut self.content[sc as usize];
            item.on_select = binding;
            if let Some(w) = produced {
                let item = &mut self.content[sc as usize];
                item.option = ConfigOption::Window(w);
            }
            r
        } else {
            if let Some(sc) = self.selected_content {
                match &mut self.content[sc as usize].option {
                    ConfigOption::Window(w) => w.select(env),
                    _ => {
                        proof {
                            assert(false);
                        }
                        None
                    },
                }
            } else {
                None
            }
        }
    }
}


impl Window {
    /// The two windows agree everywhere except the focus flag, which in
    /// `post` has the given value.
    pub open spec fn same_but_focus(pre: Window, post: Window, focused: bool) -> bool {
        &&& post.name == pre.name
        &&& post.content@ == pre.content@
        &&& post.window_selected == focused
        &&& post.highlighted_content == pre.highlighted_content
        &&& post.selected_content == pre.selected_content
    }

    /// `post` is `pre` with focus taken: this window focused and the
    /// committed sub-window at index `i` unfocused one level down.
    pub open spec fn focus_grab(pre: Window, post: Window, i: int) -> bool {
        &&& post.content@.len() == pre.content@.len()
        &&& (forall|k: int|
            0 <= k < pre.content@.len() && k != i ==> post.content@[k] == pre.content@[k])
        &&& post.content@[i].short_text == pre.content@[i].short_text
        &&& post.content@[i].full_text == pre.content@[i].full_text
        &&& post.content@[i].on_select == pre.content@[i].on_select
        &&& post.content@[i].option is Window
        &&& Self::same_but_focus(
            pre.content@[i].option->Window_0,
            post.content@[i].option->Window_0,
            false,
        )
        &&& post.name == pre.name
        &&& post.window_selected == true
        &&& post.highlighted_content == pre.highlighted_content
        &&& post.selected_content == pre.selected_content
    }

    /// The two windows agree everywhere except that `post` is unfocused and
    /// the item at index `i` holds a (possibly different) sub-window.
    pub open spec fn descend_shell(pre: Window, post: Window, i: int) -> bool {
        &&& post.content@.len() == pre.content@.len()
        &&& (forall|k: int|
            0 <= k < pre.content@.len() && k != i ==> post.content@[k] == pre.content@[k])
        &&& post.content@[i].short_text == pre.content@[i].short_text
        &&& post.content@[i].full_text == pre.content@[i].full_text
        &&& post.content@[i].on_select == pre.content@[i].on_select
        &&& post.content@[i].option is Window
        &&& post.name == pre.name
        &&& post.window_selected == false
        &&& post.highlighted_content == pre.highlighted_content
        &&& post.selected_content == pre.selected_content
    }

    /// How one focus hop relates the window before the call, the requested
    /// depth, the window after the call, and the depth at which focus
    /// landed: the walk follows the committed chain, consuming one depth
    /// unit per hop, and stops where the requested depth runs out or where
    /// the chain dead-ends (no committed sub-window); the stop window
    /// becomes focused and its committed sub-window, if any, is unfocused.
    pub open spec fn focus_rel(pre: Window, sw: u16, post: Window, d: u16) -> bool
        decreases pre,
    {
        match pre.selected_content {
            Some(i) => {
                if 0 <= (i as int) < pre.content@.len() {
                    match pre.content@[i as int].option {
                        ConfigOption::Window(cw) => {
                            if sw == 0 {
                                &&& d == 0
                                &&& Self::focus_grab(pre, post, i as int)
                            } else {
                                &&& d >= 1
                                &&& Self::descend_shell(pre, post, i as int)
                                &&& Self::focus_rel(
                                    cw,
                                    (sw - 1) as u16,
                                    post.content@[i as int].option->Window_0,
                                    (d - 1) as u16,
                                )
                            }
                        },
                        _ => Self::same_but_focus(pre, post, true) && d == 0,
                    }
                } else {
                    Self::same_but_focus(pre, post, true) && d == 0
                }
            },
            None => Self::same_but_focus(pre, post, true) && d == 0,
        }
    }

    /// Changing only the focus flag preserves well-formedness.
    pub proof fn lemma_same_but_focus_wf(pre: Window, post: Window, f: bool)
        requires
            Self::same_but_focus(pre, post, f),
            pre.wf(),
        ensures
            post.wf(),
    {
    }

    /// Walk the committed chain, converting one hop of focus: the window
    /// `selected_window` hops down becomes focused and the windows walked
    /// over become unfocused; a dead end clamps focus there. Returns the
    /// depth at which focus landed.
    pub fn select_window(&mut self, selected_window: u16) -> (d: u16)
        requires
            old(self).wf(),
        ensures
            final(self).wf(),
            final(self).focus_live(),
            (d as nat) == final(self).focus_depth(),
            d <= selected_window,
            Self::focus_rel(*old(self), selected_window, *final(self), d),
        decreases *old(self),
    {
        if let Some(sc) = self.selected_content {
            match &mut self.content[sc as usize].option {
                ConfigOption::Window(w) => {
                    if selected_window == 0 {
                        w.unselect_window();
                        self.window_selected = true;
                        proof {
                            Self::lemma_same_but_focus_wf(
                                old(self).content@[sc as int].option->Window_0,
                                self.content@[sc as int].option->Window_0,
                                false,
                            );
                        }
                        0
                    } else {
                        let dc = w.select_window(selected_window - 1);
                        self.window_selected = false;
                        dc + 1
                    }
                },
                _ => {
                    self.window_selected = true;
                    proof {
                        assert(self.content@ =~= old(self).content@);
                    }
                    0
                },
            }
        } else {
            self.window_selected = true;
            0
        }
    }

    /// Drop this window's focus flag; the rest of its state is untouched.
    pub fn unselect_window(&mut self)
        ensures
            Self::same_but_focus(*old(self), *final(self), false),
    {
        self.window_selected = false;
    }
}


impl Window {
    /// A cursor step never moves the focus: the focused window stays where
    /// it was along the committed chain.
    pub proof fn lemma_cursor_step_depth(pre: Window, post: Window)
        requires
            pre.wf(),
            pre.focus_live(),
            Self::cursor_step_rel(pre, post),
        ensures
            post.focus_depth() == pre.focus_depth(),
            post.focus_live(),
        decreases pre,
    {
        if pre.window_selected && pre.content@.len() > 0 {
        } else {
            match pre.selected_content {
                Some(i) => {
                    if 0 <= (i as int) < pre.content@.len() {
                        match pre.content@[i as int].option {
                            ConfigOption::Window(cw) => {
                                Self::lemma_cursor_step_depth(
                                    cw,
                                    post.content@[i as int].option->Window_0,
                                );
                            },
                            _ => {
                            },
                        }
                    }
                },
                None => {
                },
            }
        }
    }

    /// A backward cursor step never moves the focus either.
    pub proof fn lemma_cursor_back_depth(pre: Window, post: Window)
        requires
            pre.wf(),
            pre.focus_live(),
            Self::cursor_back_rel(pre, post),
        ensures
            post.focus_depth() == pre.focus_depth(),
            post.focus_live(),
        decreases pre,
    {
        if pre.window_selected {
        } else {
            match pre.selected_content {
                Some(i) => {
                    if 0 <= (i as int) < pre.content@.len() {
                        match pre.content@[i as int].option {
                            ConfigOption::Window(cw) => {
                                Self::lemma_cursor_back_depth(
                                    cw,
                                    post.content@[i as int].option->Window_0,
                                );
                            },
                            _ => {
                            },
                        }
                    }
                },
                None => {
                },
            }
        }
    }

    /// A selection never moves the focus: committing and installing happen
    /// at or below the focused window.
    pub proof fn lemma_select_depth(
        pre: Window,
        env: ActionEnv,
        post: Window,
        r: Option<ControlResult>,
    )
        requires
            pre.wf(),
            pre.focus_live(),
            Self::select_rel(pre, env, post, r),
        ensures
            post.focus_depth() == pre.focus_depth(),
            post.focus_live(),
        decreases pre,
    {
        if pre.window_selected {
        } else {
            match pre.selected_content {
                Some(i) => {
                    if 0 <= (i as int) < pre.content@.len() {
                        match pre.content@[i as int].option {
                            ConfigOption::Window(cw) => {
                                Self::lemma_select_depth(
                                    cw,
                                    env,
                                    post.content@[i as int].option->Window_0,
                                    r,
                                );
                            },
                            _ => {
                            },
                        }
                    }
                },
                None => {
                },
            }
        }
    }
}

/// The control panel: the root menu window and the focus-depth accumulator
/// that threads left/right navigation through the committed chain.
#[derive(Debug)]
pub struct ControlPanel {
    pub description: String,
    pub main_window: Window,
    pub selected_window: u16,
}

impl ControlPanel {
    /// The panel's invariant: the root window is well formed, the cursor
    /// keys reach a window, and the accumulator holds the focused window's
    /// depth.
    pub open spec fn wf(self) -> bool {
        &&& self.main_window.wf()
        &&& self.main_window.focus_live()
        &&& (self.selected_window as nat) == self.main_window.focus_depth()
    }

    /// The fixed main menu: list controllers, connect a controller, select
    /// the displayed page, and control the driver port.
    pub fn new() -> (r: ControlPanel)
        ensures
            r.wf(),
            r.main_window.name@ == "Main menu"@,
            r.main_window.window_selected,
            r.main_window.highlighted_content == 0,
            r.main_window.selected_content is None,
            r.selected_window == 0,
            r.main_window.content@.len() == 4,
            r.main_window.content@[0].short_text@ == "List Controllers"@,
            r.main_window.content@[0].on_select == Some(
                ConfigFnOptions::NoneToWindow(WindowAction::ListControllers),
            ),
            r.main_window.content@[1].short_text@ == "Connect Controller"@,
            r.main_window.content@[1].on_select == Some(
                ConfigFnOptions::NoneToWindow(WindowAction::SelectController),
            ),
            r.main_window.content@[2].short_text@ == "Select Page"@,
            r.main_window.content@[2].on_select == Some(
                ConfigFnOptions::NoneToWindow(WindowAction::ListPages),
            ),
            r.main_window.content@[3].short_text@ == "Driver Port Control"@,
            r.main_window.content@[3].on_select == Some(
                ConfigFnOptions::NoneToWindow(WindowAction::ListPorts),
            ),
    {
        let mut configs: Vec<Config> = Vec::new();
        configs.push(
            Config::new("List Controllers".to_owned()).with_fulltext(
                "List all controllers connected to the machine".to_owned(),
            ).with_on_select(ConfigFnOptions::NoneToWindow(WindowAction::ListControllers)),
        );
        configs.push(
            Config::new("Connect Controller".to_owned()).with_fulltext(
                "List all controllers connected to the machine".to_owned(),
            ).with_on_select(ConfigFnOptions::NoneToWindow(WindowAction::SelectController)),
        );
        configs.push(
            Config::new("Select Page".to_owned()).with_fulltext(
                "Select the currently displayed telemetry page".to_owned(),
            ).with_on_select(ConfigFnOptions::NoneToWindow(WindowAction::ListPages)),
        );
        configs.push(
            Config::new("Driver Port Control".to_owned()).with_fulltext(
                "List and select Driver Port".to_owned(),
            ).with_on_select(ConfigFnOptions::NoneToWindow(WindowAction::ListPorts)),
        );
        let window = Window::new("Main menu".to_owned()).with_configs(configs).as_selected();
        ControlPanel {
            description: "Terminal Config!".to_owned(),
            main_window: window,
            selected_window: 0,
        }
    }

    /// Move the focused window's cursor one item forward.
    pub fn next_item(&mut self)
        requires
            old(self).wf(),
        ensures
            final(self).wf(),
            Window::cursor_step_rel(old(self).main_window, final(self).main_window),
            final(self).description == old(self).description,
            final(self).selected_window == old(self).selected_window,
    {
        self.main_window.next_item();
        proof {
            Window::lemma_cursor_step_depth(old(self).main_window, self.main_window);
        }
    }

    /// Move the focused window's cursor one item backward.
    pub fn previous_item(&mut self)
        requires
            old(self).wf(),
        ensures
            final(self).wf(),
            Window::cursor_back_rel(old(self).main_window, final(self).main_window),
            final(self).description == old(self).description,
            final(self).selected_window == old(self).selected_window,
    {
        self.main_window.previous_item();
        proof {
            Window::lemma_cursor_back_depth(old(self).main_window, self.main_window);
        }
    }

    /// Commit the focused window's selection against the hardware catalog
    /// and report the dispatched effect.
    pub fn select(&mut self, env: &ActionEnv) -> (r: Option<ControlResult>)
        requires
            old(self).wf(),
            env.wf(),
        ensures
            final(self).wf(),
            Window::select_rel(old(self).main_window, *env, final(self).main_window, r),
            final(self).description == old(self).description,
            final(self).selected_window == old(self).selected_window,
    {
        let r = self.main_window.select(env);
        proof {
            Window::lemma_select_depth(old(self).main_window, *env, self.main_window, r);
        }
        r
    }

    /// Move the focus one hop away from the root, clamping at a dead end.
    pub fn next_window(&mut self)
        requires
            old(self).wf(),
        ensures
            final(self).wf(),
            final(self).description == old(self).description,
            Window::focus_rel(
                old(self).main_window,
                if old(self).selected_window < u16::MAX {
                    (old(self).selected_window + 1) as u16
                } else {
                    u16::MAX
                },
                final(self).main_window,
                final(self).selected_window,
            ),
    {
        let target = if self.selected_window < u16::MAX {
            self.selected_window + 1
        } else {
            u16::MAX
        };
        self.selected_window = self.main_window.select_window(target);
    }

    /// Move the focus one hop toward the root, saturating there.
    pub fn prev_window(&mut self)
        requires
            old(self).wf(),
        ensures
            final(self).wf(),
            final(self).description == old(self).description,
            Window::focus_rel(
                old(self).main_window,
                if old(self).selected_window == 0 {
                    0u16
                } else {
                    (old(self).selected_window - 1) as u16
                },
                final(self).main_window,
                final(self).selected_window,
            ),
    {
        let target = if self.selected_window == 0 {
            0
        } else {
            self.selected_window - 1
        };
        self.selected_window = self.main_window.select_window(target);
    }
}


/// Whether a binding's shape produces a sub-window when dispatched.
pub open spec fn produces_window(b: ConfigFnOptions) -> bool {
    ||| b is NoneToWindow
    ||| b is WindowToWindow
    ||| b is ConfigToWindow
}

/// Law: a selection on a focused window whose cursor item's binding
/// produces a window always commits to that item and leaves the item's
/// content holding the produced sub-window, whatever the item held before.
pub proof fn lemma_select_installs_window(
    pre: Window,
    env: ActionEnv,
    post: Window,
    r: Option<ControlResult>,
)
    requires
        Window::select_rel(pre, env, post, r),
        pre.window_selected,
        pre.content@.len() > 0,
        pre.content@[pre.highlighted_content as int].on_select matches Some(b)
            && produces_window(b),
    ensures
        post.selected_content == Some(pre.highlighted_content),
        post.content@[pre.highlighted_content as int].option is Window,
{
}

/// Law: on a focused, non-empty window, advancing the cursor as many times
/// as there are items brings it back to where it started and leaves the
/// window otherwise untouched: the forward cursor steps form a cycle.
/// `trace` is the run of window states, one cursor step apart.
pub proof fn lemma_cursor_cycle(trace: Seq<Window>)
    requires
        trace.len() >= 2,
        trace[0].window_selected,
        trace[0].content@.len() > 0,
        trace[0].content@.len() <= u16::MAX,
        (trace[0].highlighted_content as int) < trace[0].content@.len(),
        trace.len() == trace[0].content@.len() + 1,
        forall|j: int|
            0 <= j < trace.len() - 1 ==> #[trigger] Window::cursor_step_rel(
                trace[j],
                trace[j + 1],
            ),
    ensures
        trace.last().highlighted_content == trace[0].highlighted_content,
        trace.last().name == trace[0].name,
        trace.last().content == trace[0].content,
        trace.last().window_selected == trace[0].window_selected,
        trace.last().selected_content == trace[0].selected_content,
{
    let len = trace[0].content@.len() as int;
    let h0 = trace[0].highlighted_content as int;
    lemma_cursor_cycle_aux(trace, trace.len() - 1);
    assert((h0 + len) % len == h0 % len) by {
        vstd::arithmetic::div_mod::lemma_mod_add_multiples_vanish(h0, len);
    }
    assert(h0 % len == h0) by {
        vstd::arithmetic::div_mod::lemma_small_mod(h0 as nat, len as nat);
    }
}

/// After `k` forward cursor steps the cursor sits `k` places further,
/// modulo the item count, and nothing else has moved.
proof fn lemma_cursor_cycle_aux(trace: Seq<Window>, k: int)
    requires
        trace.len() >= 1,
        trace[0].window_selected,
        trace[0].content@.len() > 0,
        trace[0].content@.len() <= u16::MAX,
        (trace[0].highlighted_content as int) < trace[0].content@.len(),
        0 <= k < trace.len(),
        forall|j: int|
            0 <= j < trace.len() - 1 ==> #[trigger] Window::cursor_step_rel(
                trace[j],
                trace[j + 1],
            ),
    ensures
        trace[k].window_selected,
        trace[k].name == trace[0].name,
        trace[k].content == trace[0].content,
        trace[k].selected_content == trace[0].selected_content,
        (trace[k].highlighted_content as int) == ((trace[0].highlighted_content as int) + k) % (
        trace[0].content@.len() as int),
    decreases k,
{
    let len = trace[0].content@.len() as int;
    let h0 = trace[0].highlighted_content as int;
    if k == 0 {
        assert(h0 % len == h0) by {
            vstd::arithmetic::div_mod::lemma_small_mod(h0 as nat, len as nat);
        }
    } else {
        lemma_cursor_cycle_aux(trace, k - 1);
        let j = k - 1;
        assert(Window::cursor_step_rel(trace[j], trace[j + 1]));
        assert(trace[j + 1] == trace[k]);
        assert(0 <= (h0 + k - 1) % len < len) by {
            vstd::arithmetic::div_mod::lemma_mod_bound(h0 + k - 1, len);
        }
        assert(0 <= (h0 + k) % len < len) by {
            vstd::arithmetic::div_mod::lemma_mod_bound(h0 + k, len);
        }
        assert(((h0 + k - 1) % len + 1) % len == (h0 + k) % len) by {
            vstd::arithmetic::div_mod::lemma_add_mod_noop(h0 + k - 1, 1, len);
            if len > 1 {
                vstd::arithmetic::div_mod::lemma_small_mod(1nat, len as nat);
            } else {
                assert(len == 1);
                vstd::arithmetic::div_mod::lemma_mod_self_0(1);
            }
        }
    }
}


impl Window {
    /// The committed item exists and holds a sub-window.
    pub open spec fn has_committed_window(self) -> bool {
        match self.selected_content {
            Some(i) => 0 <= (i as int) < self.content@.len() && self.content@[i as int].option
                is Window,
            None => false,
        }
    }

    /// The committed sub-window.
    pub open spec fn committed_child(self) -> Window
        recommends
            self.has_committed_window(),
    {
        self.content@[self.selected_content->0 as int].option->Window_0
    }

    /// Along the committed chain strictly below this window, no window is
    /// focused.
    pub open spec fn below_unfocused(self) -> bool
        decreases self,
    {
        match self.selected_content {
            Some(i) => if 0 <= (i as int) < self.content@.len() {
                match self.content@[i as int].option {
                    ConfigOption::Window(cw) => !cw.window_selected && cw.below_unfocused(),
                    _ => true,
                }
            } else {
                true
            },
            None => true,
        }
    }

    /// At most one window along the committed chain is focused: every chain
    /// window below the focused one is unfocused.
    pub open spec fn chain_tidy(self) -> bool
        decreases self,
    {
        if self.window_selected {
            self.below_unfocused()
        } else {
            match self.selected_content {
                Some(i) => if 0 <= (i as int) < self.content@.len() {
                    match self.content@[i as int].option {
                        ConfigOption::Window(cw) => cw.chain_tidy(),
                        _ => true,
                    }
                } else {
                    true
                },
                None => true,
            }
        }
    }

    /// The focused window on the committed chain has a committed sub-window
    /// of its own, so the focus can move one hop deeper.
    pub open spec fn descendable(self) -> bool
        decreases self,
    {
        if self.window_selected {
            self.has_committed_window()
        } else {
            match self.selected_content {
                Some(i) => if 0 <= (i as int) < self.content@.len() {
                    match self.content@[i as int].option {
                        ConfigOption::Window(cw) => cw.descendable(),
                        _ => false,
                    }
                } else {
                    false
                },
                None => false,
            }
        }
    }

    /// The two windows hold the same state, compared structurally item by
    /// item.
    pub open spec fn same_window(x: Window, y: Window) -> bool
        decreases x,
    {
        &&& y.name == x.name
        &&& y.window_selected == x.window_selected
        &&& y.highlighted_content == x.highlighted_content
        &&& y.selected_content == x.selected_content
        &&& y.content@.len() == x.content@.len()
        &&& (forall|k: int|
            0 <= k < x.content@.len() ==> Self::same_config(
                #[trigger] x.content@[k],
                y.content@[k],
            ))
    }

    /// The two items hold the same state, compared structurally.
    pub open spec fn same_config(x: Config, y: Config) -> bool
        decreases x,
    {
        &&& y.short_text == x.short_text
        &&& y.full_text == x.full_text
        &&& y.on_select == x.on_select
        &&& match x.option {
            ConfigOption::Window(xw) => y.option matches ConfigOption::Window(yw)
                && Self::same_window(xw, yw),
            _ => y.option == x.option,
        }
    }

    /// Structural window equality is reflexive.
    pub proof fn lemma_same_window_refl(x: Window)
        ensures
            Self::same_window(x, x),
        decreases x,
    {
        assert forall|k: int| 0 <= k < x.content@.len() implies Self::same_config(
            #[trigger] x.content@[k],
            x.content@[k],
        ) by {
            Self::lemma_same_config_refl(x.content@[k]);
        }
    }

    /// Structural item equality is reflexive.
    pub proof fn lemma_same_config_refl(x: Config)
        ensures
            Self::same_config(x, x),
        decreases x,
    {
        match x.option {
            ConfigOption::Window(xw) => {
                Self::lemma_same_window_refl(xw);
            },
            _ => {
            },
        }
    }

    /// Windows that agree on their flags and hold the same item sequence
    /// are structurally the same.
    pub proof fn lemma_view_eq_same(x: Window, y: Window)
        requires
            y.name == x.name,
            y.content@ == x.content@,
            y.window_selected == x.window_selected,
            y.highlighted_content == x.highlighted_content,
            y.selected_content == x.selected_content,
        ensures
            Self::same_window(x, y),
    {
        assert forall|k: int| 0 <= k < x.content@.len() implies Self::same_config(
            #[trigger] x.content@[k],
            y.content@[k],
        ) by {
            Self::lemma_same_config_refl(x.content@[k]);
        }
    }
}


impl Window {
    /// Law: moving the focus one hop deeper and then one hop back restores
    /// the window exactly and returns the accumulator to its old value,
    /// provided the focused window has a committed sub-window to descend
    /// into (no dead end) and no window below the focus is focused.
    pub proof fn lemma_focus_round_trip(
        w0: Window,
        w1: Window,
        w2: Window,
        a: u16,
        d1: u16,
        b: u16,
        d2: u16,
    )
        requires
            w0.wf(),
            w0.focus_live(),
            w0.chain_tidy(),
            w0.descendable(),
            (a as nat) == w0.focus_depth(),
            a < u16::MAX,
            Self::focus_rel(w0, (a + 1) as u16, w1, d1),
            (b as int) == (d1 as int) - 1,
            Self::focus_rel(w1, b, w2, d2),
        ensures
            d1 == a + 1,
            d2 == a,
            Self::same_window(w0, w2),
        decreases w0,
    {
        let i = w0.selected_content->0 as int;
        let c0 = w0.content@[i].option->Window_0;
        if w0.window_selected {
            // the focus sits here; one hop down, one hop back
            assert(w0.has_committed_window());
            let c1 = w1.content@[i].option->Window_0;
            let c2 = w2.content@[i].option->Window_0;
            assert(Self::descend_shell(w0, w1, i));
            assert(Self::focus_rel(c0, 0u16, c1, (d1 - 1) as u16));
            assert(d1 == 1);
            assert(Self::focus_grab(w1, w2, i));
            assert(d2 == 0);
            assert(!c0.window_selected);
            assert(Self::same_but_focus(c1, c2, false));
            match c0.selected_content {
                Some(jj) => {
                    let j = jj as int;
                    if 0 <= j < c0.content@.len() && c0.content@[j].option is Window {
                        // the hop down grabbed focus inside the child
                        let cc0 = c0.content@[j].option->Window_0;
                        let cc1 = c1.content@[j].option->Window_0;
                        assert(Self::focus_grab(c0, c1, j));
                        assert(w0.below_unfocused());
                        assert(!c0.window_selected && c0.below_unfocused());
                        assert(!cc0.window_selected);
                        Self::lemma_view_eq_same(cc0, cc1);
                        assert forall|k: int| 0 <= k < c0.content@.len() implies
                            Self::same_config(#[trigger] c0.content@[k], c2.content@[k]) by {
                            if k == j {
                                Self::lemma_same_window_refl(cc1);
                                assert(c2.content@[k] == c1.content@[k]);
                            } else {
                                assert(c2.content@[k] == c0.content@[k]);
                                Self::lemma_same_config_refl(c0.content@[k]);
                            }
                        }
                        assert(Self::same_window(c0, c2));
                    } else {
                        assert(Self::same_but_focus(c0, c1, true));
                        Self::lemma_view_eq_same(c0, c2);
                    }
                },
                None => {
                    assert(Self::same_but_focus(c0, c1, true));
                    Self::lemma_view_eq_same(c0, c2);
                },
            }
            assert forall|k: int| 0 <= k < w0.content@.len() implies Self::same_config(
                #[trigger] w0.content@[k],
                w2.content@[k],
            ) by {
                if k != i {
                    assert(w2.content@[k] == w0.content@[k]);
                    Self::lemma_same_config_refl(w0.content@[k]);
                }
            }
        } else {
            // the focus sits deeper; both hops forward to the child
            let c1 = w1.content@[i].option->Window_0;
            let c2 = w2.content@[i].option->Window_0;
            assert(Self::descend_shell(w0, w1, i));
            assert(Self::focus_rel(c0, a as u16, c1, (d1 - 1) as u16));
            assert(c0.focus_depth() + 1 == a);
            Self::lemma_focus_round_trip(
                c0,
                c1,
                c2,
                (a - 1) as u16,
                (d1 - 1) as u16,
                (b - 1) as u16,
                (d2 - 1) as u16,
            );
            assert forall|k: int| 0 <= k < w0.content@.len() implies Self::same_config(
                #[trigger] w0.content@[k],
                w2.content@[k],
            ) by {
                if k != i {
                    assert(w2.content@[k] == w0.content@[k]);
                    Self::lemma_same_config_refl(w0.content@[k]);
                }
            }
        }
    }
}

} // verus!
