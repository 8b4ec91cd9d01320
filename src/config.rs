use vstd::prelude::*;
use vstd::string::*;
use crate::paths::{expand, expand_spec, opt_chars};
use crate::messages::{declined_line, declined_spec, log_line, log_line_spec};
use crate::plan::{plan, plan_spec, Action, DestState, DestView, Mode, SourceKind};

verus! {

/// The settings of one run.
#[derive(Debug, Clone)]
pub struct Configman {
    /// Log every action, not only warnings.
    pub verbose: bool,
    /// Ask before each change of the filesystem.
    pub interactive: bool,
    /// Report what a normal run would do, and change nothing.
    pub dry_run: bool,
    /// Remove the links that a normal run made.
    pub remove: bool,
    /// Move the files that the destination lacks there, and link them back.
    pub import: bool,
    /// The source directory as given; the current directory when absent.
    pub source: Option<String>,
    /// The destination directory as given; the home directory when absent.
    pub destination: Option<String>,
}

/// Why the source or destination directory could not be determined.
#[derive(Debug, Clone, Copy, PartialEq, Eq, Structural)]
pub enum ConfigError {
    /// No source was given and the current directory is unknown, or the
    /// source starts with `~` and the home directory is unknown.
    UnknownSource,
    /// No destination was given, or it starts with `~`, and the home
    /// directory is unknown.
    UnknownDestination,
}

/// The directory that `raw` names, with `fallback` standing for it when it is
/// absent and `home` for a leading `~`; `None` when one that is needed is
/// unknown.
pub open spec fn resolve_spec(
    raw: Option<Seq<char>>,
    fallback: Option<Seq<char>>,
    home: Option<Seq<char>>,
) -> Option<Seq<char>> {
    match raw {
        None => fallback,
        Some(p) => if p.len() > 0 && p[0] == '~' {
            match home {
                Some(h) => Some(expand_spec(p, h)),
                None => None,
            }
        } else {
            Some(p)
        },
    }
}

/// How loud a logged line is.
#[derive(Debug, Clone, Copy, PartialEq, Eq, Structural)]
pub enum Level {
    Info,
    Warn,
}

/// What becomes of one planned action once the user was asked, if asked.
#[derive(Debug, Clone)]
pub struct Step {
    /// Whether the action's filesystem effect is performed.
    pub perform: bool,
    /// Whether the run stops here, with `line` as its error.
    pub fails: bool,
    /// The line logged for the entry (after the effect, when there is one);
    /// empty when nothing is logged.
    pub line: String,
    /// The level of `line`.
    pub level: Level,
}

/// Whether a run that is `interactive` performs `action`, given the user's
/// `reply` to the prompt, if any.
pub open spec fn performs_spec(interactive: bool, action: Action, reply: Option<Seq<char>>) -> bool {
    action.mutates() && (!interactive || (reply is Some && is_yes_spec(reply->0)))
}

/// The line logged for `action` on the source entry `source` with
/// destination `dest`: a declined change is logged as such.
pub open spec fn step_line_spec(
    interactive: bool,
    action: Action,
    reply: Option<Seq<char>>,
    source: Seq<char>,
    dest: Seq<char>,
) -> Seq<char> {
    if action.mutates() && !performs_spec(interactive, action, reply) {
        declined_spec(dest)
    } else {
        log_line_spec(action, source, dest)
    }
}

/// The level of the line logged for `action`: a skip and a failure warn.
pub open spec fn level_spec(action: Action) -> Level {
    match action {
        Action::Skip | Action::Fail => Level::Warn,
        _ => Level::Info,
    }
}

/// The mode that the flags select: a dry run before an import, an import
/// before a removal, and a normal run when none is set.
pub open spec fn mode_spec(dry_run: bool, import: bool, remove: bool) -> Mode {
    if dry_run {
        Mode::DryRun
    } else if import {
        Mode::Import
    } else if remove {
        Mode::Remove
    } else {
        Mode::Normal
    }
}

/// Whether `c` is white space at the edge of a reply: a character with the
/// Unicode property `White_Space`.
pub open spec fn is_blank(c: char) -> bool {
    let u = c as u32;
    (0x9 <= u && u <= 0xd) || u == 0x20 || u == 0x85 || u == 0xa0 || u == 0x1680 || (0x2000
        <= u && u <= 0x200a) || u == 0x2028 || u == 0x2029 || u == 0x202f || u == 0x205f || u
        == 0x3000
}

/// `s` without the white space at its start and its end.
pub open spec fn trim_spec(s: Seq<char>) -> Seq<char>
    decreases s.len(),
{
    if s.len() > 0 && is_blank(s[0]) {
        trim_spec(s.skip(1))
    } else if s.len() > 0 && is_blank(s.last()) {
        trim_spec(s.drop_last())
    } else {
        s
    }
}

/// Whether `c` is the letter `lower` or its capital `upper`.
pub open spec fn is_letter(c: char, lower: char, upper: char) -> bool {
    c == lower || c == upper
}

/// Whether the reply `s`, without its blank edges, is `y` or `yes` in any case.
pub open spec fn is_yes_spec(s: Seq<char>) -> bool {
    let t = trim_spec(s);
    (t.len() == 1 && is_letter(t[0], 'y', 'Y')) || (t.len() == 3 && is_letter(t[0], 'y', 'Y')
        && is_letter(t[1], 'e', 'E') && is_letter(t[2], 's', 'S'))
}

proof fn lemma_trim_front(s: Seq<char>, i: int, j: int)
    requires
        0 <= i < j <= s.len(),
        is_blank(s[i]),
    ensures
        trim_spec(s.subrange(i, j)) == trim_spec(s.subrange(i + 1, j)),
{
    assert(s.subrange(i, j).skip(1) =~= s.subrange(i + 1, j));
}

proof fn lemma_trim_back(s: Seq<char>, i: int, j: int)
    requires
        0 <= i < j <= s.len(),
        !is_blank(s[i]),
        is_blank(s[j - 1]),
    ensures
        trim_spec(s.subrange(i, j)) == trim_spec(s.subrange(i, j - 1)),
{
    assert(s.subrange(i, j).drop_last() =~= s.subrange(i, j - 1));
}

/// Whether the reply `s` to a confirmation prompt is yes: `y` or `yes` in any
/// case, with any white space around it. Anything else, the empty reply too, is no.
pub fn is_yes(s: &str) -> (r: bool)
    ensures
        r == is_yes_spec(s@),
{
    let n = s.unicode_len();
    let mut i: usize = 0;
    let mut j: usize = n;
    assert(s@.subrange(0, n as int) =~= s@);
    while i < j && is_blank_char(s.get_char(i))
        invariant
            n == s@.len(),
            i <= j <= n,
            trim_spec(s@.subrange(i as int, j as int)) == trim_spec(s@),
        decreases j - i,
    {
        proof {
            lemma_trim_front(s@, i as int, j as int);
        }
        i = i + 1;
    }
    while i < j && is_blank_char(s.get_char(j - 1))
        invariant
            n == s@.len(),
            i <= j <= n,
            i < j ==> !is_blank(s@[i as int]),
            trim_spec(s@.subrange(i as int, j as int)) == trim_spec(s@),
        decreases j - i,
    {
        proof {
            lemma_trim_back(s@, i as int, j as int);
        }
        j = j - 1;
    }
    proof {
        let t = s@.subrange(i as int, j as int);
        if t.len() > 0 {
            assert(t[0] == s@[i as int]);
            assert(t.last() == s@[j - 1]);
        }
        assert(trim_spec(t) == t);
    }
    if j - i == 1 {
        let c = s.get_char(i);
        c == 'y' || c == 'Y'
    } else if j - i == 3 {
        let a = s.get_char(i);
        let b = s.get_char(i + 1);
        let c = s.get_char(i + 2);
        (a == 'y' || a == 'Y') && (b == 'e' || b == 'E') && (c == 's' || c == 'S')
    } else {
        false
    }
}

/// Whether `c` is white space at the edge of a reply.
fn is_blank_char(c: char) -> (r: bool)
    ensures
        r == is_blank(c),
{
    let u = c as u32;
    (0x9 <= u && u <= 0xd) || u == 0x20 || u == 0x85 || u == 0xa0 || u == 0x1680 || (0x2000
        <= u && u <= 0x200a) || u == 0x2028 || u == 0x2029 || u == 0x202f || u == 0x205f || u
        == 0x3000
}

impl Configman {
    /// The settings made of the given flags and directories.
    pub fn new(
        verbose: bool,
        interactive: bool,
        dry_run: bool,
        remove: bool,
        import: bool,
        source: Option<String>,
        destination: Option<String>,
    ) -> (r: Self)
        ensures
            r.verbose == verbose,
            r.interactive == interactive,
            r.dry_run == dry_run,
            r.remove == remove,
            r.import == import,
            r.source == source,
            r.destination == destination,
    {
        Configman { verbose, interactive, dry_run, remove, import, source, destination }
    }

    /// The mode that the flags select: a dry run before an import, an import
    /// before a removal, and a normal run when none is set.
    pub fn mode(&self) -> (r: Mode)
        ensures
            r == mode_spec(self.dry_run, self.import, self.remove),
    {
        if self.dry_run {
            Mode::DryRun
        } else if self.import {
            Mode::Import
        } else if self.remove {
            Mode::Remove
        } else {
            Mode::Normal
        }
    }

    /// Whether actions are logged: when asked for, and always in a dry run.
    pub fn logs_actions(&self) -> (r: bool)
        ensures
            r == (self.verbose || self.dry_run),
    {
        self.verbose || self.dry_run
    }

    /// The source and destination directories, before they are made canonical:
    /// the source defaults to the current directory `cwd`, the destination to
    /// the home directory `home`, and a leading `~` of either stands for `home`.
    pub fn src_dest(&self, cwd: Option<String>, home: Option<String>) -> (r: Result<
        (String, String),
        ConfigError,
    >)
        ensures
            match r {
                Ok((s, d)) => resolve_spec(opt_chars(self.source), opt_chars(cwd), opt_chars(home))
                    == Some(s@) && resolve_spec(
                    opt_chars(self.destination),
                    opt_chars(home),
                    opt_chars(home),
                ) == Some(d@),
                Err(ConfigError::UnknownSource) => resolve_spec(
                    opt_chars(self.source),
                    opt_chars(cwd),
                    opt_chars(home),
                ) is None,
                Err(ConfigError::UnknownDestination) => resolve_spec(
                    opt_chars(self.source),
                    opt_chars(cwd),
                    opt_chars(home),
                ) is Some && resolve_spec(
                    opt_chars(self.destination),
                    opt_chars(home),
                    opt_chars(home),
                ) is None,
            },
    {
        let s = match resolve(&self.source, &cwd, &home) {
            Some(s) => s,
            None => return Err(ConfigError::UnknownSource),
        };
        let d = match resolve(&self.destination, &home, &home) {
            Some(d) => d,
            None => return Err(ConfigError::UnknownDestination),
        };
        Ok((s, d))
    }

    /// Whether an action that waits on confirmation runs, given the user's
    /// `reply` to the prompt: always when the run is not interactive, and
    /// otherwise only on a reply of yes (no reply counts as no).
    pub fn ask_and_run(&self, reply: Option<&str>) -> (r: bool)
        ensures
            r == (!self.interactive || (reply is Some && is_yes_spec(reply->0@))),
    {
        if !self.interactive {
            true
        } else {
            match reply {
                Some(s) => is_yes(s),
                None => false,
            }
        }
    }

    /// Whether `action` waits on the user's confirmation: in an interactive
    /// run, each action that changes the filesystem does.
    pub fn needs_prompt(&self, action: Action) -> (r: bool)
        ensures
            r == (self.interactive && action.mutates()),
    {
        self.interactive && action.is_mutation()
    }

    /// What becomes of `action`, planned for the source entry `source` with
    /// destination `dest`, given the user's `reply` to its prompt, if any: it
    /// is performed only when it changes the filesystem and either the run is
    /// not interactive or the reply is yes. A failure stops the run. The line
    /// logged names a declined change as such, and otherwise the action.
    pub fn step(&self, action: Action, source: &str, dest: &str, reply: Option<&str>) -> (r: Step)
        ensures
            r.perform == performs_spec(self.interactive, action, opt_str(reply)),
            r.fails == (action == Action::Fail),
            r.line@ == step_line_spec(self.interactive, action, opt_str(reply), source@, dest@),
            r.level == level_spec(action),
    {
        let mutates = action.is_mutation();
        let perform = mutates && self.ask_and_run(reply);
        let line = if mutates && !perform {
            declined_line(dest)
        } else {
            log_line(action, source, dest)
        };
        let level = match action {
            Action::Skip | Action::Fail => Level::Warn,
            _ => Level::Info,
        };
        Step { perform, fails: action == Action::Fail, line, level }
    }

    /// What this run does for one entry of the walk: an entry of kind `kind`
    /// at the source path `source`, whose destination holds `dest`.
    pub fn action_for(&self, kind: SourceKind, dest: &DestState, source: &str) -> (r: Action)
        ensures
            r == plan_spec(mode_spec(self.dry_run, self.import, self.remove), kind, dest@, source@),
    {
        plan(self.mode(), kind, dest, source)
    }
}

/// The view of an optional reply.
pub open spec fn opt_str(s: Option<&str>) -> Option<Seq<char>> {
    match s {
        Some(t) => Some(t@),
        None => None,
    }
}

/// Declining every prompt of a normal run changes nothing, and each entry
/// whose destination is free is logged once as declined.
pub proof fn lemma_declining_changes_nothing(
    kind: SourceKind,
    dest: DestView,
    source: Seq<char>,
    target: Seq<char>,
    reply: Seq<char>,
)
    requires
        !is_yes_spec(reply),
    ensures
        !performs_spec(true, plan_spec(Mode::Normal, kind, dest, source), Some(reply)),
        (dest == DestView::Absent && kind != SourceKind::Other) ==> step_line_spec(
            true,
            plan_spec(Mode::Normal, kind, dest, source),
            Some(reply),
            source,
            target,
        ) == declined_spec(target),
{
}

/// The directory that `raw` names: see [`resolve_spec`].
fn resolve(raw: &Option<String>, fallback: &Option<String>, home: &Option<String>) -> (r: Option<
    String,
>)
    ensures
        opt_chars(r) == resolve_spec(opt_chars(*raw), opt_chars(*fallback), opt_chars(*home)),
{
    match raw {
        None => match fallback {
            Some(f) => Some(f.clone()),
            None => None,
        },
        Some(p) => {
            let n = p.as_str().unicode_len();
            if n > 0 && p.as_str().get_char(0) == '~' {
                match home {
                    Some(h) => Some(expand(p.as_str(), h.as_str())),
                    None => None,
                }
            } else {
                Some(p.clone())
            }
        },
    }
}

} // verus!
