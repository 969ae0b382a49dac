use vstd::prelude::*;

use crate::filter::{filter_records, kept};
use crate::record::{decoded_all, parse_vcf, record_views, texts, VcfRecord};
use crate::text::{pop_char, push_char, trim, trimmed};

verus! {

/// A key press, as the views react to it.
#[derive(Debug, Clone, Copy, PartialEq, Eq, Structural)]
pub enum Key {
    Char(char),
    Up,
    Down,
    Enter,
    Esc,
    Backspace,
    Tab,
    Other,
}

/// What the caller must do after a key has been handled.
#[derive(Debug, Clone, Copy, PartialEq, Eq, Structural)]
pub enum Action {
    /// Nothing beyond drawing the new state.
    Idle,
    /// End the program.
    Quit,
    /// Read the selected file and hand its lines to `App::load_selected_vcf`.
    LoadSelected,
}

/// Which dialog is open: the filter menu, or the text input for one criterion.
#[derive(Debug, Clone, Copy, PartialEq, Eq, Structural)]
pub enum ModalKind {
    Menu,
    Chrom,
    Ref,
    Alt,
    Pos,
}

impl Default for ModalKind {
    fn default() -> (r: ModalKind)
        ensures
            r == ModalKind::Menu,
    {
        ModalKind::Menu
    }
}

/// The tab bar: the active tab and the tab titles.
pub struct TabsState {
    pub index: usize,
    pub titles: Vec<String>,
}

/// The catalog of discovered files, its cursor and its name filter.
pub struct FileListState {
    pub items: Vec<String>,
    pub selected: Option<usize>,
    pub filter: String,
}

/// The records of the open file, the record cursor and the four criteria.
pub struct VcfState {
    pub records: Vec<VcfRecord>,
    pub selected: Option<usize>,
    pub chrom_filter: String,
    pub ref_filter: String,
    pub alt_filter: String,
    pub pos_filter: String,
}

/// An open dialog: its kind, the text typed so far, and the highlighted menu item.
pub struct ModalState {
    pub kind: ModalKind,
    pub input: String,
    pub menu_selected: usize,
}

/// The whole state of the viewer.
pub struct App {
    pub tabs: TabsState,
    pub files: FileListState,
    pub vcf: VcfState,
    pub modal: Option<ModalState>,
}

/// The tab bar, as values.
pub ghost struct TabsView {
    pub index: usize,
    pub titles: Seq<Seq<char>>,
}

/// The file catalog, as values.
pub ghost struct FilesView {
    pub items: Seq<Seq<char>>,
    pub selected: Option<usize>,
    pub filter: Seq<char>,
}

/// The records and criteria, as values.
pub ghost struct VcfView {
    pub records: Seq<VcfRecord>,
    pub selected: Option<usize>,
    pub chrom_filter: Seq<char>,
    pub ref_filter: Seq<char>,
    pub alt_filter: Seq<char>,
    pub pos_filter: Seq<char>,
}

/// An open dialog, as values.
pub ghost struct ModalView {
    pub kind: ModalKind,
    pub input: Seq<char>,
    pub menu_selected: usize,
}

/// The whole state of the viewer, as values.
pub ghost struct AppView {
    pub tabs: TabsView,
    pub files: FilesView,
    pub vcf: VcfView,
    pub modal: Option<ModalView>,
}

impl View for ModalState {
    type V = ModalView;

    open spec fn view(&self) -> ModalView {
        ModalView { kind: self.kind, input: self.input@, menu_selected: self.menu_selected }
    }
}

/// The view of an optional dialog.
pub open spec fn modal_view(m: Option<ModalState>) -> Option<ModalView> {
    match m {
        Some(s) => Some(s@),
        None => None,
    }
}

impl View for App {
    type V = AppView;

    open spec fn view(&self) -> AppView {
        AppView {
            tabs: TabsView { index: self.tabs.index, titles: texts(self.tabs.titles@) },
            files: FilesView {
                items: texts(self.files.items@),
                selected: self.files.selected,
                filter: self.files.filter@,
            },
            vcf: VcfView {
                records: self.vcf.records@,
                selected: self.vcf.selected,
                chrom_filter: self.vcf.chrom_filter@,
                ref_filter: self.vcf.ref_filter@,
                alt_filter: self.vcf.alt_filter@,
                pos_filter: self.vcf.pos_filter@,
            },
            modal: modal_view(self.modal),
        }
    }
}

/// The index of the last item of the filter menu.
pub const LAST_MENU_ITEM: usize = 5;

/// A well-formed state: two tabs, one of them active; the file cursor on a file;
/// the menu highlight on an item.
pub open spec fn view_wf(a: AppView) -> bool {
    &&& a.tabs.titles.len() == 2
    &&& a.tabs.index < 2
    &&& match a.files.selected {
        Some(i) => i < a.files.items.len(),
        None => true,
    }
    &&& match a.modal {
        Some(m) => m.menu_selected <= LAST_MENU_ITEM,
        None => true,
    }
}

/// The menu dialog, with its first item highlighted.
pub open spec fn menu_view() -> ModalView {
    ModalView { kind: ModalKind::Menu, input: Seq::empty(), menu_selected: 0 }
}

/// The text input dialog of kind `kind`, empty.
pub open spec fn input_view(kind: ModalKind) -> ModalView {
    ModalView { kind, input: Seq::empty(), menu_selected: 0 }
}

/// A cursor one step down, kept on the last of `len` items.
pub open spec fn step_down(sel: Option<usize>, len: nat) -> Option<usize> {
    match sel {
        Some(s) => if s + 1 < len {
            Some((s + 1) as usize)
        } else {
            sel
        },
        None => None,
    }
}

/// A cursor one step up, kept on the first item.
pub open spec fn step_up(sel: Option<usize>) -> Option<usize> {
    match sel {
        Some(s) => if s > 0 {
            Some((s - 1) as usize)
        } else {
            sel
        },
        None => None,
    }
}

/// The text `s` without its last character, if it has one.
pub open spec fn without_last(s: Seq<char>) -> Seq<char> {
    if s.len() > 0 {
        s.drop_last()
    } else {
        s
    }
}

/// `a` with the next tab active.
pub open spec fn next_tab(a: AppView) -> AppView {
    AppView {
        tabs: TabsView { index: ((a.tabs.index + 1) % (a.tabs.titles.len() as int)) as usize, ..a.tabs },
        ..a
    }
}

/// `a` with tab `t` active.
pub open spec fn with_tab(a: AppView, t: usize) -> AppView {
    AppView { tabs: TabsView { index: t, ..a.tabs }, ..a }
}

/// The records of `v` that pass its criteria.
pub open spec fn visible(v: VcfView) -> Seq<VcfRecord> {
    kept(v.records, v.chrom_filter, v.ref_filter, v.alt_filter, v.pos_filter)
}

/// How the file browser reacts to `key`.
pub open spec fn files_tab_step(a: AppView, key: Key) -> (AppView, Action) {
    match key {
        Key::Char(c) => if c == 'q' {
            (a, Action::Quit)
        } else {
            (AppView { files: FilesView { filter: a.files.filter.push(c), ..a.files }, ..a }, Action::Idle)
        },
        Key::Down => (
            AppView {
                files: FilesView {
                    selected: step_down(a.files.selected, a.files.items.len()),
                    ..a.files
                },
                ..a
            },
            Action::Idle,
        ),
        Key::Up => (
            AppView { files: FilesView { selected: step_up(a.files.selected), ..a.files }, ..a },
            Action::Idle,
        ),
        Key::Enter => (with_tab(a, 1), Action::LoadSelected),
        Key::Backspace => (
            AppView { files: FilesView { filter: without_last(a.files.filter), ..a.files }, ..a },
            Action::Idle,
        ),
        Key::Tab => (next_tab(a), Action::Idle),
        _ => (a, Action::Idle),
    }
}

/// A record cursor one step down among `len` items; the first step lands on
/// the first item.
pub open spec fn record_step_down(sel: Option<usize>, len: nat) -> Option<usize> {
    match sel {
        Some(_) => step_down(sel, len),
        None => if len > 0 {
            Some(0)
        } else {
            None
        },
    }
}

/// How the record viewer reacts to `key`.
pub open spec fn vcf_tab_step(a: AppView, key: Key) -> AppView {
    match key {
        Key::Char(c) => if c == 'q' {
            with_tab(a, 0)
        } else if c == 'f' {
            AppView { modal: Some(menu_view()), ..a }
        } else {
            a
        },
        Key::Esc => with_tab(a, 0),
        Key::Down => AppView {
            vcf: VcfView {
                selected: record_step_down(a.vcf.selected, visible(a.vcf).len()),
                ..a.vcf
            },
            ..a
        },
        Key::Up => AppView { vcf: VcfView { selected: step_up(a.vcf.selected), ..a.vcf }, ..a },
        Key::Tab => next_tab(a),
        _ => a,
    }
}

/// `a` with all four criteria empty.
pub open spec fn cleared(a: AppView) -> AppView {
    AppView {
        vcf: VcfView {
            chrom_filter: Seq::empty(),
            ref_filter: Seq::empty(),
            alt_filter: Seq::empty(),
            pos_filter: Seq::empty(),
            ..a.vcf
        },
        ..a
    }
}

/// `a` with the criterion that a dialog of kind `kind` edits set to `text`.
pub open spec fn with_criterion(a: AppView, kind: ModalKind, text: Seq<char>) -> AppView {
    match kind {
        ModalKind::Chrom => AppView { vcf: VcfView { chrom_filter: text, ..a.vcf }, ..a },
        ModalKind::Ref => AppView { vcf: VcfView { ref_filter: text, ..a.vcf }, ..a },
        ModalKind::Alt => AppView { vcf: VcfView { alt_filter: text, ..a.vcf }, ..a },
        ModalKind::Pos => AppView { vcf: VcfView { pos_filter: text, ..a.vcf }, ..a },
        ModalKind::Menu => a,
    }
}

/// What choosing menu item `i` does: edit one criterion, clear them all, or cancel.
pub open spec fn menu_choice(a: AppView, i: usize) -> AppView {
    if i == 0 {
        AppView { modal: Some(input_view(ModalKind::Chrom)), ..a }
    } else if i == 1 {
        AppView { modal: Some(input_view(ModalKind::Ref)), ..a }
    } else if i == 2 {
        AppView { modal: Some(input_view(ModalKind::Alt)), ..a }
    } else if i == 3 {
        AppView { modal: Some(input_view(ModalKind::Pos)), ..a }
    } else if i == 4 {
        AppView { modal: None, ..cleared(a) }
    } else if i == 5 {
        AppView { modal: None, ..a }
    } else {
        a
    }
}

/// How the open dialog `m` reacts to `key`.
pub open spec fn modal_step(a: AppView, m: ModalView, key: Key) -> AppView {
    if m.kind == ModalKind::Menu {
        match key {
            Key::Up => if m.menu_selected > 0 {
                AppView {
                    modal: Some(ModalView { menu_selected: (m.menu_selected - 1) as usize, ..m }),
                    ..a
                }
            } else {
                a
            },
            Key::Down => if m.menu_selected < LAST_MENU_ITEM {
                AppView {
                    modal: Some(ModalView { menu_selected: (m.menu_selected + 1) as usize, ..m }),
                    ..a
                }
            } else {
                a
            },
            Key::Enter => menu_choice(a, m.menu_selected),
            Key::Esc => AppView { modal: None, ..a },
            _ => a,
        }
    } else {
        match key {
            Key::Char(c) => AppView { modal: Some(ModalView { input: m.input.push(c), ..m }), ..a },
            Key::Backspace => AppView {
                modal: Some(ModalView { input: without_last(m.input), ..m }),
                ..a
            },
            Key::Enter => AppView {
                modal: None,
                ..with_criterion(a, m.kind, trimmed(m.input))
            },
            Key::Esc => AppView { modal: None, ..a },
            _ => a,
        }
    }
}

/// How the viewer reacts to `key`: an open dialog takes it first, else the active tab.
pub open spec fn key_step(a: AppView, key: Key) -> (AppView, Action) {
    match a.modal {
        Some(m) => (modal_step(a, m, key), Action::Idle),
        None => if a.tabs.index == 0 {
            files_tab_step(a, key)
        } else if a.tabs.index == 1 {
            (vcf_tab_step(a, key), Action::Idle)
        } else {
            (a, Action::Idle)
        },
    }
}

/// The path `p` names a file with the extension `vcf`: it ends in `.vcf`, after
/// at least one more character of the file name.
pub open spec fn is_vcf_path(p: Seq<char>) -> bool {
    &&& p.len() >= 5
    &&& p[p.len() - 5] != '/'
    &&& p.skip(p.len() - 4) == seq!['.', 'v', 'c', 'f']
}

/// Tells whether the path `p` names a file with the extension `vcf`.
pub fn has_vcf_extension(p: &str) -> (r: bool)
    ensures
        r == is_vcf_path(p@),
{
    let cs = crate::text::chars_of(p);
    let n = cs.len();
    if n < 5 {
        return false;
    }
    let r = cs[n - 5] != '/' && cs[n - 4] == '.' && cs[n - 3] == 'v' && cs[n - 2] == 'c' && cs[
        n - 1] == 'f';
    let ghost tail = p@.skip(n - 4);
    if r {
        assert(tail =~= seq!['.', 'v', 'c', 'f']);
    } else if cs[n - 5] != '/' {
        assert(tail != seq!['.', 'v', 'c', 'f']) by {
            assert(tail[0] == cs@[n - 4]);
            assert(tail[1] == cs@[n - 3]);
            assert(tail[2] == cs@[n - 2]);
            assert(tail[3] == cs@[n - 1]);
        }
    }
    r
}

/// The paths of `paths` that name `vcf` files, in order.
pub open spec fn vcf_paths(paths: Seq<Seq<char>>) -> Seq<Seq<char>> {
    paths.filter(|p: Seq<char>| is_vcf_path(p))
}

/// The cursor of a list of `len` items when it is first shown.
pub open spec fn first_of(len: nat) -> Option<usize> {
    if len > 0 {
        Some(0)
    } else {
        None
    }
}

impl ModalState {
    /// The filter menu, with its first item highlighted.
    pub fn new_menu() -> (r: ModalState)
        ensures
            r@ == menu_view(),
    {
        ModalState { kind: ModalKind::Menu, input: String::new(), menu_selected: 0 }
    }

    /// An empty text input of kind `kind`.
    pub fn new_input(kind: ModalKind) -> (r: ModalState)
        ensures
            r@ == input_view(kind),
    {
        ModalState { kind, input: String::new(), menu_selected: 0 }
    }
}

impl App {
    /// The state is well formed.
    pub open spec fn wf(&self) -> bool {
        view_wf(self@)
    }

    /// Tells whether the state is well formed.
    pub fn is_well_formed(&self) -> (r: bool)
        ensures
            r == self.wf(),
    {
        let menu_ok = match &self.modal {
            Some(m) => m.menu_selected <= LAST_MENU_ITEM,
            None => true,
        };
        let cursor_ok = match self.files.selected {
            Some(i) => i < self.files.items.len(),
            None => true,
        };
        self.tabs.titles.len() == 2 && self.tabs.index < 2 && cursor_ok && menu_ok
    }

    /// The viewer over the `vcf` files among `paths`: the file browser active, the
    /// cursor on the first file, no records loaded, no criteria, no dialog.
    pub fn new(paths: &Vec<String>) -> (r: App)
        ensures
            r.wf(),
            r@.tabs.index == 0,
            r@.tabs.titles == seq!["Files"@, "VCF Viewer"@],
            r@.files.items == vcf_paths(texts(paths@)),
            r@.files.selected == first_of(r@.files.items.len()),
            r@.files.filter.len() == 0,
            r@.vcf.records.len() == 0,
            r@.vcf.selected is None,
            r@.vcf.chrom_filter.len() == 0,
            r@.vcf.ref_filter.len() == 0,
            r@.vcf.alt_filter.len() == 0,
            r@.vcf.pos_filter.len() == 0,
            r@.modal is None,
    {
        let mut titles: Vec<String> = Vec::new();
        titles.push(String::from_str("Files"));
        titles.push(String::from_str("VCF Viewer"));
        let mut app = App {
            tabs: TabsState { index: 0, titles },
            files: FileListState { items: Vec::new(), selected: None, filter: String::new() },
            vcf: VcfState {
                records: Vec::new(),
                selected: None,
                chrom_filter: String::new(),
                ref_filter: String::new(),
                alt_filter: String::new(),
                pos_filter: String::new(),
            },
            modal: None,
        };
        assert(texts(app.tabs.titles@) =~= seq!["Files"@, "VCF Viewer"@]);
        app.load_vcf_files(paths);
        app.files.selected = if app.files.items.len() > 0 {
            Some(0)
        } else {
            None
        };
        app
    }

    /// Replaces the file catalog with the `vcf` files among `paths`, in their
    /// order; every other field, the file cursor included, stays as it was.
    pub fn load_vcf_files(&mut self, paths: &Vec<String>)
        ensures
            final(self)@ == (AppView {
                files: FilesView { items: vcf_paths(texts(paths@)), ..old(self)@.files },
                ..old(self)@
            }),
            old(self).wf() && match old(self)@.files.selected {
                Some(i) => i < vcf_paths(texts(paths@)).len(),
                None => true,
            } ==> final(self).wf(),
    {
        let ghost pred = |p: Seq<char>| is_vcf_path(p);
        let mut files: Vec<String> = Vec::new();
        let mut i: usize = 0;
        while i < paths.len()
            invariant
                i <= paths@.len(),
                pred == (|p: Seq<char>| is_vcf_path(p)),
                texts(files@) == texts(paths@).take(i as int).filter(pred),
            decreases paths@.len() - i,
        {
            let ghost before = texts(files@);
            proof {
                let t = texts(paths@).take(i + 1);
                assert(t.drop_last() =~= texts(paths@).take(i as int));
                assert(t.last() == paths@[i as int]@);
                reveal(Seq::filter);
            }
            if has_vcf_extension(paths[i].as_str()) {
                files.push(paths[i].clone());
                assert(texts(files@) =~= before.push(paths@[i as int]@));
            }
            i = i + 1;
        }
        assert(texts(paths@).take(i as int) =~= texts(paths@));
        self.files.items = files;
    }

    /// The path under the file cursor, if any.
    pub fn selected_file(&self) -> (r: Option<&String>)
        requires
            self.wf(),
        ensures
            match self@.files.selected {
                Some(i) => r is Some && r->0@ == self@.files.items[i as int],
                None => r is None,
            },
    {
        match self.files.selected {
            Some(i) => Some(&self.files.items[i]),
            None => None,
        }
    }

    /// Replaces the records with those of the selected file, given its lines, or
    /// with none where it could not be read (`None`); clears the record cursor.
    /// Without a selected file nothing changes.
    pub fn load_selected_vcf(&mut self, lines: Option<Vec<String>>)
        requires
            old(self).wf(),
        ensures
            final(self).wf(),
            old(self)@.files.selected is None ==> final(self)@ == old(self)@,
            old(self)@.files.selected is Some ==> {
                &&& record_views(final(self)@.vcf.records) == match lines {
                    Some(l) => decoded_all(l@),
                    None => Seq::empty(),
                }
                &&& final(self)@ == (AppView {
                    vcf: VcfView {
                        records: final(self)@.vcf.records,
                        selected: None,
                        ..old(self)@.vcf
                    },
                    ..old(self)@
                })
            },
    {
        if self.files.selected.is_some() {
            let records = match lines {
                Some(l) => parse_vcf(&l),
                None => Vec::new(),
            };
            proof {
                assert(record_views(Seq::<VcfRecord>::empty()) =~= Seq::empty());
            }
            self.vcf.records = records;
            self.vcf.selected = None;
        }
    }

    /// The records that pass the four criteria, in their order.
    pub fn filtered_records(&self) -> (r: Vec<&VcfRecord>)
        ensures
            r@.unref() == visible(self@.vcf),
    {
        filter_records(
            &self.vcf.records,
            self.vcf.chrom_filter.as_str(),
            self.vcf.ref_filter.as_str(),
            self.vcf.alt_filter.as_str(),
            self.vcf.pos_filter.as_str(),
        )
    }
}

/// The file browser's reaction to `key`.
pub fn handle_files_tab(app: &mut App, key: Key) -> (r: Action)
    requires
        old(app).wf(),
    ensures
        final(app).wf(),
        (final(app)@, r) == files_tab_step(old(app)@, key),
{
    match key {
        Key::Char(c) => {
            if c == 'q' {
                return Action::Quit;
            }
            push_char(&mut app.files.filter, c);
        },
        Key::Down => {
            if let Some(sel) = app.files.selected {
                if sel < app.files.items.len() - 1 {
                    app.files.selected = Some(sel + 1);
                }
            }
        },
        Key::Up => {
            if let Some(sel) = app.files.selected {
                if sel > 0 {
                    app.files.selected = Some(sel - 1);
                }
            }
        },
        Key::Enter => {
            app.tabs.index = 1;
            return Action::LoadSelected;
        },
        Key::Backspace => {
            pop_char(&mut app.files.filter);
        },
        Key::Tab => {
            app.tabs.index = (app.tabs.index + 1) % app.tabs.titles.len();
        },
        _ => {},
    }
    Action::Idle
}

/// The record viewer's reaction to `key`.
pub fn handle_vcf_tab(app: &mut App, key: Key)
    requires
        old(app).wf(),
    ensures
        final(app).wf(),
        final(app)@ == vcf_tab_step(old(app)@, key),
{
    match key {
        Key::Char(c) => {
            if c == 'q' {
                app.tabs.index = 0;
            } else if c == 'f' {
                app.modal = Some(ModalState::new_menu());
            }
        },
        Key::Esc => {
            app.tabs.index = 0;
        },
        Key::Down => {
            let shown = app.filtered_records().len();
            if let Some(sel) = app.vcf.selected {
                if shown > 0 && sel < shown - 1 {
                    app.vcf.selected = Some(sel + 1);
                }
            } else if shown > 0 {
                app.vcf.selected = Some(0);
            }
        },
        Key::Up => {
            if let Some(sel) = app.vcf.selected {
                if sel > 0 {
                    app.vcf.selected = Some(sel - 1);
                }
            }
        },
        Key::Tab => {
            app.tabs.index = (app.tabs.index + 1) % app.tabs.titles.len();
        },
        _ => {},
    }
}

/// The open dialog's reaction to `key`.
pub fn handle_modal_key(app: &mut App, key: Key)
    requires
        old(app).wf(),
        old(app).modal is Some,
    ensures
        final(app).wf(),
        final(app)@ == modal_step(old(app)@, old(app)@.modal->0, key),
{
    let kind = match &app.modal {
        Some(m) => m.kind,
        None => ModalKind::Menu,
    };
    if kind == ModalKind::Menu {
        match key {
            Key::Up => {
                if let Some(m) = &mut app.modal {
                    if m.menu_selected > 0 {
                        m.menu_selected = m.menu_selected - 1;
                    }
                }
            },
            Key::Down => {
                if let Some(m) = &mut app.modal {
                    if m.menu_selected < LAST_MENU_ITEM {
                        m.menu_selected = m.menu_selected + 1;
                    }
                }
            },
            Key::Enter => {
                let choice = match &app.modal {
                    Some(m) => m.menu_selected,
                    None => 0,
                };
                if choice == 0 {
                    app.modal = Some(ModalState::new_input(ModalKind::Chrom));
                } else if choice == 1 {
                    app.modal = Some(ModalState::new_input(ModalKind::Ref));
                } else if choice == 2 {
                    app.modal = Some(ModalState::new_input(ModalKind::Alt));
                } else if choice == 3 {
                    app.modal = Some(ModalState::new_input(ModalKind::Pos));
                } else if choice == 4 {
                    app.vcf.chrom_filter = String::new();
                    app.vcf.ref_filter = String::new();
                    app.vcf.alt_filter = String::new();
                    app.vcf.pos_filter = String::new();
                    app.modal = None;
                } else if choice == 5 {
                    app.modal = None;
                }
            },
            Key::Esc => {
                app.modal = None;
            },
            _ => {},
        }
    } else {
        match key {
            Key::Char(c) => {
                if let Some(m) = &mut app.modal {
                    push_char(&mut m.input, c);
                }
            },
            Key::Backspace => {
                if let Some(m) = &mut app.modal {
                    pop_char(&mut m.input);
                }
            },
            Key::Enter => {
                let txt = match &app.modal {
                    Some(m) => trim(m.input.as_str()).to_owned(),
                    None => String::new(),
                };
                match kind {
                    ModalKind::Chrom => {
                        app.vcf.chrom_filter = txt;
                    },
                    ModalKind::Ref => {
                        app.vcf.ref_filter = txt;
                    },
                    ModalKind::Alt => {
                        app.vcf.alt_filter = txt;
                    },
                    ModalKind::Pos => {
                        app.vcf.pos_filter = txt;
                    },
                    ModalKind::Menu => {},
                }
                app.modal = None;
            },
            Key::Esc => {
                app.modal = None;
            },
            _ => {},
        }
    }
}

/// The viewer's reaction to `key`: an open dialog takes it first, else the
/// active tab.
pub fn handle_key(app: &mut App, key: Key) -> (r: Action)
    requires
        old(app).wf(),
    ensures
        final(app).wf(),
        (final(app)@, r) == key_step(old(app)@, key),
{
    if app.modal.is_some() {
        handle_modal_key(app, key);
        return Action::Idle;
    }
    if app.tabs.index == 0 {
        handle_files_tab(app, key)
    } else if app.tabs.index == 1 {
        handle_vcf_tab(app, key);
        Action::Idle
    } else {
        Action::Idle
    }
}

} // verus!
