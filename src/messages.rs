use vstd::prelude::*;
use vstd::string::*;
use crate::plan::Action;

verus! {

/// The line logged when `action` was performed for the source entry at
/// `source` with destination `dest`; empty for [`Action::Nothing`].
pub open spec fn log_line_spec(action: Action, source: Seq<char>, dest: Seq<char>) -> Seq<char> {
    match action {
        Action::Nothing => Seq::empty(),
        Action::CreateDir | Action::ReportCreate => "[CREATE] "@ + dest,
        Action::Link => "[LINK] "@ + dest,
        Action::ReportLink => "[LINK] "@ + source + " => "@ + dest,
        Action::Unlink => "[UNLINKED] "@ + dest,
        Action::Import => "[LINK] "@ + source,
        Action::Skip | Action::ReportSkip => "[SKIP] "@ + dest + " (exist)"@,
        Action::Fail => dest + " should either be file or directory"@,
    }
}

/// The question asked before `action` changes the filesystem; empty for an
/// action that changes nothing.
pub open spec fn prompt_spec(action: Action, source: Seq<char>, dest: Seq<char>) -> Seq<char> {
    match action {
        Action::CreateDir => "Create dir "@ + dest + "?"@,
        Action::Link => "Create symlink to "@ + dest + " from "@ + source + "?"@,
        Action::Unlink => "Remove "@ + dest + "?"@,
        Action::Import => "Import "@ + source + " into "@ + dest + "?"@,
        _ => Seq::empty(),
    }
}

/// The line logged when the user declined the change of `dest`.
pub open spec fn declined_spec(dest: Seq<char>) -> Seq<char> {
    "[SKIP] "@ + dest + " (declined)"@
}

/// The concatenation of the four parts.
fn join4(a: &str, b: &str, c: &str, d: &str) -> (r: String)
    ensures
        r@ == a@ + b@ + c@ + d@,
{
    let mut r = String::from_str(a);
    r.append(b);
    r.append(c);
    r.append(d);
    r
}

/// The line logged when `action` was performed for the source entry at
/// `source` with destination `dest`.
pub fn log_line(action: Action, source: &str, dest: &str) -> (r: String)
    ensures
        r@ == log_line_spec(action, source@, dest@),
{
    let r = match action {
        Action::Nothing => join4("", "", "", ""),
        Action::CreateDir | Action::ReportCreate => join4("[CREATE] ", dest, "", ""),
        Action::Link => join4("[LINK] ", dest, "", ""),
        Action::ReportLink => join4("[LINK] ", source, " => ", dest),
        Action::Unlink => join4("[UNLINKED] ", dest, "", ""),
        Action::Import => join4("[LINK] ", source, "", ""),
        Action::Skip | Action::ReportSkip => join4("[SKIP] ", dest, " (exist)", ""),
        Action::Fail => join4(dest, " should either be file or directory", "", ""),
    };
    proof {
        reveal_strlit("");
    }
    assert(r@ =~= log_line_spec(action, source@, dest@));
    r
}

/// The question asked before `action` changes the filesystem, for the source
/// entry at `source` with destination `dest`.
pub fn prompt_message(action: Action, source: &str, dest: &str) -> (r: String)
    ensures
        r@ == prompt_spec(action, source@, dest@),
{
    let r = match action {
        Action::CreateDir => join4("Create dir ", dest, "?", ""),
        Action::Link => {
            let mut r = join4("Create symlink to ", dest, " from ", source);
            r.append("?");
            r
        },
        Action::Unlink => join4("Remove ", dest, "?", ""),
        Action::Import => {
            let mut r = join4("Import ", source, " into ", dest);
            r.append("?");
            r
        },
        _ => join4("", "", "", ""),
    };
    proof {
        reveal_strlit("");
    }
    assert(r@ =~= prompt_spec(action, source@, dest@));
    r
}

/// The line logged when the user declined the change of `dest`.
pub fn declined_line(dest: &str) -> (r: String)
    ensures
        r@ == declined_spec(dest@),
{
    let r = join4("[SKIP] ", dest, " (declined)", "");
    proof {
        reveal_strlit("");
    }
    assert(r@ =~= declined_spec(dest@));
    r
}

} // verus!
