use vstd::prelude::*;

verus! {

/// What a run does with the entries of the source tree.
#[derive(Debug, Clone, Copy, PartialEq, Eq, Structural)]
pub enum Mode {
    /// Link each file into the destination, creating its directories.
    Normal,
    /// Report what `Normal` would do, and change nothing.
    DryRun,
    /// Remove the destination links that point back at the source.
    Remove,
    /// Move each file that the destination lacks there, and leave a link in
    /// its place in the source.
    Import,
}

/// What an entry of the source tree is, following symbolic links.
#[derive(Debug, Clone, Copy, PartialEq, Eq, Structural)]
pub enum SourceKind {
    Dir,
    File,
    /// Neither a directory nor a regular file (a broken link, a socket, ...).
    Other,
}

/// What stands at an entry's destination path, without following a link there.
#[derive(Debug, Clone)]
pub enum DestState {
    /// Nothing.
    Absent,
    /// A directory, a file or anything else that is not a symbolic link.
    Present,
    /// A symbolic link, with the path that it holds.
    Link(String),
}

/// The model of [`DestState`].
pub enum DestView {
    Absent,
    Present,
    Link(Seq<char>),
}

impl View for DestState {
    type V = DestView;

    open spec fn view(&self) -> DestView {
        match self {
            DestState::Absent => DestView::Absent,
            DestState::Present => DestView::Present,
            DestState::Link(t) => DestView::Link(t@),
        }
    }
}

/// What is done for one entry of the walk.
#[derive(Debug, Clone, Copy, PartialEq, Eq, Structural)]
pub enum Action {
    /// Nothing at all.
    Nothing,
    /// Create the destination directory, with its missing parents.
    CreateDir,
    /// Create at the destination a link to the source entry.
    Link,
    /// Remove the link at the destination.
    Unlink,
    /// Copy the source file to the destination, remove the source file, and
    /// create at the source path a link to the destination.
    Import,
    /// Leave the entry alone with a warning: the destination exists.
    Skip,
    /// Report that the destination directory would be created.
    ReportCreate,
    /// Report that the destination would be linked to the source entry.
    ReportLink,
    /// Report that the destination exists and would be left alone.
    ReportSkip,
    /// Stop the run: the entry is neither a file nor a directory.
    Fail,
}

impl Action {
    /// Whether performing the action changes the filesystem.
    pub open spec fn mutates(self) -> bool {
        match self {
            Action::CreateDir | Action::Link | Action::Unlink | Action::Import => true,
            _ => false,
        }
    }

    /// Whether the action only reports what a normal run would do.
    pub open spec fn reports(self) -> bool {
        match self {
            Action::ReportCreate | Action::ReportLink | Action::ReportSkip => true,
            _ => false,
        }
    }

    /// Whether performing the action changes the filesystem.
    pub fn is_mutation(&self) -> (r: bool)
        ensures
            r == self.mutates(),
    {
        match self {
            Action::CreateDir | Action::Link | Action::Unlink | Action::Import => true,
            _ => false,
        }
    }
}

/// The action that `mode` takes for an entry of kind `kind` at the source
/// path `source`, whose destination holds `dest`.
pub open spec fn plan_spec(mode: Mode, kind: SourceKind, dest: DestView, source: Seq<char>) -> Action {
    match mode {
        Mode::Normal => match (kind, dest) {
            (SourceKind::Dir, DestView::Absent) => Action::CreateDir,
            (SourceKind::File, DestView::Absent) => Action::Link,
            _ => Action::Nothing,
        },
        Mode::DryRun => match (kind, dest) {
            (SourceKind::Other, _) => Action::Fail,
            (SourceKind::Dir, DestView::Absent) => Action::ReportCreate,
            (SourceKind::File, DestView::Absent) => Action::ReportLink,
            _ => Action::ReportSkip,
        },
        Mode::Remove => match (kind, dest) {
            (SourceKind::Dir, _) => Action::Nothing,
            (_, DestView::Link(t)) => if t == source {
                Action::Unlink
            } else {
                Action::Nothing
            },
            _ => Action::Nothing,
        },
        Mode::Import => match (kind, dest) {
            (SourceKind::Dir, DestView::Absent) => Action::CreateDir,
            (SourceKind::File, DestView::Absent) => Action::Import,
            (SourceKind::Other, DestView::Absent) => Action::Nothing,
            _ => Action::Skip,
        },
    }
}

/// What stands at the destination path after `action` was performed for the
/// source entry at `source`, where `dest` stood before.
pub open spec fn effect(action: Action, dest: DestView, source: Seq<char>) -> DestView {
    match action {
        Action::CreateDir => DestView::Present,
        Action::Link => DestView::Link(source),
        Action::Unlink => DestView::Absent,
        Action::Import => DestView::Present,
        _ => dest,
    }
}

/// Whether the path held by a link is the source path itself.
fn same_path(target: &String, source: &str) -> (r: bool)
    ensures
        r == (target@ == source@),
{
    let s = String::from_str(source);
    *target == s
}

/// Decides what `mode` does for one entry of the walk: an entry of kind
/// `kind` at the source path `source`, whose destination holds `dest`.
pub fn plan(mode: Mode, kind: SourceKind, dest: &DestState, source: &str) -> (r: Action)
    ensures
        r == plan_spec(mode, kind, dest@, source@),
{
    match mode {
        Mode::Normal => match (kind, dest) {
            (SourceKind::Dir, DestState::Absent) => Action::CreateDir,
            (SourceKind::File, DestState::Absent) => Action::Link,
            _ => Action::Nothing,
        },
        Mode::DryRun => match (kind, dest) {
            (SourceKind::Other, _) => Action::Fail,
            (SourceKind::Dir, DestState::Absent) => Action::ReportCreate,
            (SourceKind::File, DestState::Absent) => Action::ReportLink,
            _ => Action::ReportSkip,
        },
        Mode::Remove => match (kind, dest) {
            (SourceKind::Dir, _) => Action::Nothing,
            (_, DestState::Link(t)) => if same_path(t, source) {
                Action::Unlink
            } else {
                Action::Nothing
            },
            _ => Action::Nothing,
        },
        Mode::Import => match (kind, dest) {
            (SourceKind::Dir, DestState::Absent) => Action::CreateDir,
            (SourceKind::File, DestState::Absent) => Action::Import,
            (SourceKind::Other, DestState::Absent) => Action::Nothing,
            _ => Action::Skip,
        },
    }
}

/// A second normal run changes nothing: whatever the first did for an entry,
/// the second finds its destination in place.
pub proof fn lemma_normal_idempotent(kind: SourceKind, dest: DestView, source: Seq<char>)
    ensures
        !plan_spec(
            Mode::Normal,
            kind,
            effect(plan_spec(Mode::Normal, kind, dest, source), dest, source),
            source,
        ).mutates(),
{
}

/// A normal run links every source file whose destination is free: the
/// destination becomes a link to the source file.
pub proof fn lemma_normal_links_free_files(source: Seq<char>)
    ensures
        plan_spec(Mode::Normal, SourceKind::File, DestView::Absent, source) == Action::Link,
        effect(Action::Link, DestView::Absent, source) == DestView::Link(source),
{
}

/// A removing run changes a destination only when it is a link to the
/// corresponding source entry, and that entry is not a directory; it then
/// removes that link. A destination that is not a link is left alone.
pub proof fn lemma_remove_only_own_links(kind: SourceKind, dest: DestView, source: Seq<char>)
    ensures
        plan_spec(Mode::Remove, kind, dest, source).mutates() <==> (kind != SourceKind::Dir
            && dest == DestView::Link(source)),
        plan_spec(Mode::Remove, kind, dest, source).mutates() ==> plan_spec(
            Mode::Remove,
            kind,
            dest,
            source,
        ) == Action::Unlink,
        dest == DestView::Present ==> plan_spec(Mode::Remove, kind, dest, source)
            == Action::Nothing,
{
}

/// An importing run never overwrites: where the destination exists, the entry
/// is skipped, with no copy and no removal.
pub proof fn lemma_import_never_overwrites(kind: SourceKind, dest: DestView, source: Seq<char>)
    requires
        dest != DestView::Absent,
    ensures
        plan_spec(Mode::Import, kind, dest, source) == Action::Skip,
{
}

/// A dry run changes nothing, and for each file or directory reports one line
/// on what a normal run would do; any other entry stops it.
pub proof fn lemma_dry_run_only_reports(kind: SourceKind, dest: DestView, source: Seq<char>)
    ensures
        !plan_spec(Mode::DryRun, kind, dest, source).mutates(),
        kind != SourceKind::Other ==> plan_spec(Mode::DryRun, kind, dest, source).reports(),
        kind == SourceKind::Other ==> plan_spec(Mode::DryRun, kind, dest, source)
            == Action::Fail,
        plan_spec(Mode::DryRun, kind, dest, source) == Action::ReportCreate <==> plan_spec(
            Mode::Normal,
            kind,
            dest,
            source,
        ) == Action::CreateDir,
        plan_spec(Mode::DryRun, kind, dest, source) == Action::ReportLink <==> plan_spec(
            Mode::Normal,
            kind,
            dest,
            source,
        ) == Action::Link,
{
}

} // verus!
