//! Paths as the user types them: what they stand for, and where an export
//! goes.
//!
//! Nothing here touches the file system or the environment. A typed path is
//! taken apart into a plan; the host, which knows the home directory and the
//! environment, puts the real path together.

use crate::utils::text::{chars_of, push_char};
use vstd::prelude::*;

verus! {

/// The file written where an export is pointed at a directory.
pub const EXPORT_FALLBACK_NAME: &'static str = "auth_backup.toml";

/// The ending that the path of an export carries.
pub const TOML_SUFFIX: &'static str = ".toml";

/// What a typed path stands for.
#[derive(Debug)]
pub enum PathPlan {
    /// The path as typed.
    Literal(String),
    /// The home directory itself; the path as typed where there is none.
    Home,
    /// This rest joined to the home directory; the path as typed where there
    /// is none.
    UnderHome(String),
    /// This rest joined to the value of the environment variable `name`; the
    /// path as typed where the variable is not set.
    UnderVariable { name: String, rest: String },
}

/// Where an export is written.
#[derive(Clone, Copy, Debug, PartialEq, Eq, Structural)]
pub enum ExportTarget {
    /// Into the fallback file inside the resolved path, which is a directory.
    Fallback,
    /// To the resolved path as it is.
    AsResolved,
    /// To the resolved path with its extension set to `toml`.
    WithExtension,
}

/// The number of characters of `text` before its first `/`; all of them
/// where it has none.
pub open spec fn segment_len(text: Seq<char>) -> nat
    decreases text.len(),
{
    if text.len() == 0 || text[0] == '/' {
        0
    } else {
        1 + segment_len(text.drop_first())
    }
}

/// `text` without the `/` characters it begins with.
pub open spec fn trim_slashes(text: Seq<char>) -> Seq<char>
    decreases text.len(),
{
    if text.len() > 0 && text[0] == '/' {
        trim_slashes(text.drop_first())
    } else {
        text
    }
}

/// Whether `text` ends with `suffix`.
pub open spec fn ends_with(text: Seq<char>, suffix: Seq<char>) -> bool {
    suffix.len() <= text.len() && text.skip(text.len() - suffix.len()) == suffix
}

/// The name of the variable that a path beginning with `$` names: what
/// stands between the `$` and the first `/`.
pub open spec fn variable_name(path: Seq<char>) -> Seq<char> {
    path.skip(1).take(segment_len(path.skip(1)) as int)
}

/// What follows the variable in a path beginning with `$`, without the `/`
/// characters it begins with.
pub open spec fn variable_rest(path: Seq<char>) -> Seq<char> {
    trim_slashes(path.skip(1).skip(segment_len(path.skip(1)) as int))
}

/// Whether `plan` is what the typed `path` stands for.
///
/// A path beginning with `~` stands for the home directory: for the
/// directory itself where nothing follows, else for what follows the first
/// two characters, under it. A path beginning with `$` stands for what
/// follows its first `/`, under the value of the variable named before it.
/// Any other path stands for itself.
pub open spec fn is_plan_of(plan: PathPlan, path: Seq<char>) -> bool {
    match plan {
        PathPlan::Home => path == seq!['~'],
        PathPlan::UnderHome(rest) => path.len() > 1 && path[0] == '~' && rest@ == path.skip(2),
        PathPlan::UnderVariable { name, rest } => path.len() > 0 && path[0] == '$' && name@
            == variable_name(path) && rest@ == variable_rest(path),
        PathPlan::Literal(text) => (path.len() == 0 || (path[0] != '~' && path[0] != '$'))
            && text@ == path,
    }
}

/// Where the export to the typed `path_input` goes, once the path is
/// resolved to `resolved` and it is known whether that is a directory.
///
/// An export pointed at a directory, or typed with a trailing `/` or `\`,
/// goes into the fallback file inside it. Any other export goes to the
/// resolved path, with the extension set to `toml` unless the path ends in
/// `.toml` already.
pub open spec fn export_target_of(
    path_input: Seq<char>,
    resolved: Seq<char>,
    is_dir: bool,
) -> ExportTarget {
    if is_dir || (path_input.len() > 0 && (path_input.last() == '/' || path_input.last()
        == '\\')) {
        ExportTarget::Fallback
    } else if ends_with(resolved, TOML_SUFFIX@) {
        ExportTarget::AsResolved
    } else {
        ExportTarget::WithExtension
    }
}

/// The text made of the characters of `chars` from `from` on.
fn text_from(chars: &Vec<char>, from: usize) -> (text: String)
    requires
        from <= chars.len(),
    ensures
        text@ == chars@.skip(from as int),
{
    let mut text = String::new();
    let mut i: usize = from;
    while i < chars.len()
        invariant
            from <= i <= chars.len(),
            text@ == chars@.subrange(from as int, i as int),
        decreases chars.len() - i,
    {
        push_char(&mut text, chars[i]);
        i = i + 1;
        assert(text@ =~= chars@.subrange(from as int, i as int));
    }
    assert(chars@.subrange(from as int, chars.len() as int) =~= chars@.skip(from as int));
    text
}

/// The text made of the characters of `chars` from `from` up to `to`.
fn text_between(chars: &Vec<char>, from: usize, to: usize) -> (text: String)
    requires
        from <= to <= chars.len(),
    ensures
        text@ == chars@.subrange(from as int, to as int),
{
    let mut text = String::new();
    let mut i: usize = from;
    while i < to
        invariant
            from <= i <= to <= chars.len(),
            text@ == chars@.subrange(from as int, i as int),
        decreases to - i,
    {
        push_char(&mut text, chars[i]);
        i = i + 1;
        assert(text@ =~= chars@.subrange(from as int, i as int));
    }
    text
}

/// Before the first `/`, no character is one; and what stands at the end of
/// the first segment, if anything, is a `/`.
pub proof fn lemma_segment_len(text: Seq<char>)
    ensures
        segment_len(text) <= text.len(),
        forall|k: int| 0 <= k < segment_len(text) ==> text[k] != '/',
        segment_len(text) < text.len() ==> text[segment_len(text) as int] == '/',
    decreases text.len(),
{
    if text.len() == 0 || text[0] == '/' {
    } else {
        lemma_segment_len(text.drop_first());
        assert forall|k: int| 0 <= k < segment_len(text) implies text[k] != '/' by {
            if k > 0 {
                assert(text[k] == text.drop_first()[k - 1]);
            }
        }
        if segment_len(text) < text.len() {
            assert(text[segment_len(text) as int] == text.drop_first()[segment_len(
                text.drop_first(),
            ) as int]);
        }
    }
}

/// The first position that holds a `/` ends the first segment.
pub proof fn lemma_segment_found(text: Seq<char>, at: int)
    requires
        0 <= at <= text.len(),
        forall|k: int| 0 <= k < at ==> text[k] != '/',
        at < text.len() ==> text[at] == '/',
    ensures
        segment_len(text) == at,
{
    lemma_segment_len(text);
    let found = segment_len(text) as int;
    if found < at {
        assert(text[found] == '/');
    } else if found > at {
        assert(text[at] != '/');
    }
}

/// Trimming the slashes of a text that begins with `count` of them, and with
/// no further one, drops exactly those.
pub proof fn lemma_trim_slashes(text: Seq<char>, count: int)
    requires
        0 <= count <= text.len(),
        forall|k: int| 0 <= k < count ==> text[k] == '/',
        count < text.len() ==> text[count] != '/',
    ensures
        trim_slashes(text) == text.skip(count),
    decreases count,
{
    if count == 0 {
        assert(text.skip(0) =~= text);
    } else {
        let rest = text.drop_first();
        assert forall|k: int| 0 <= k < count - 1 implies rest[k] == '/' by {
            assert(rest[k] == text[k + 1]);
        }
        lemma_trim_slashes(rest, count - 1);
        assert(rest.skip(count - 1) =~= text.skip(count));
    }
}

/// Takes a typed path apart into what it stands for.
pub fn expand_path(path: &str) -> (plan: PathPlan)
    ensures
        is_plan_of(plan, path@),
{
    let chars = chars_of(path);
    if chars.len() > 0 && chars[0] == '~' {
        if chars.len() == 1 {
            assert(path@ =~= seq!['~']);
            return PathPlan::Home;
        }
        return PathPlan::UnderHome(text_from(&chars, 2));
    }
    if chars.len() > 0 && chars[0] == '$' {
        let ghost stripped = path@.skip(1);
        let mut end: usize = 1;
        while end < chars.len() && chars[end] != '/'
            invariant
                1 <= end <= chars.len(),
                chars@ == path@,
                stripped == path@.skip(1),
                forall|k: int| 0 <= k < end - 1 ==> stripped[k] != '/',
            decreases chars.len() - end,
        {
            end = end + 1;
        }
        proof {
            lemma_segment_found(stripped, end - 1);
        }
        let name = text_between(&chars, 1, end);
        assert(name@ =~= variable_name(path@));
        let mut start: usize = end;
        while start < chars.len() && chars[start] == '/'
            invariant
                end <= start <= chars.len(),
                chars@ == path@,
                forall|k: int| end <= k < start ==> chars@[k] == '/',
            decreases chars.len() - start,
        {
            start = start + 1;
        }
        let rest = text_from(&chars, start);
        proof {
            let tail = stripped.skip(end - 1);
            assert forall|k: int| 0 <= k < start - end implies tail[k] == '/' by {
                assert(tail[k] == chars@[k + end]);
            }
            lemma_trim_slashes(tail, start - end);
            assert(tail.skip(start - end) =~= chars@.skip(start as int));
        }
        return PathPlan::UnderVariable { name, rest };
    }
    PathPlan::Literal(path.to_owned())
}

/// Tells whether `text` ends with `suffix`.
pub fn text_ends_with(text: &str, suffix: &str) -> (ends: bool)
    ensures
        ends == ends_with(text@, suffix@),
{
    let chars = chars_of(text);
    let tail = chars_of(suffix);
    if tail.len() > chars.len() {
        return false;
    }
    let offset = chars.len() - tail.len();
    let mut i: usize = 0;
    while i < tail.len()
        invariant
            i <= tail.len() <= chars.len(),
            chars@ == text@,
            tail@ == suffix@,
            offset == chars.len() - tail.len(),
            forall|k: int| 0 <= k < i ==> chars@[offset + k] == tail@[k],
        decreases tail.len() - i,
    {
        if chars[offset + i] != tail[i] {
            assert(chars@.skip(offset as int)[i as int] != tail@[i as int]);
            return false;
        }
        i = i + 1;
    }
    assert(chars@.skip(offset as int) =~= tail@);
    true
}

/// Settles where an export goes.
pub fn export_target(path_input: &str, resolved: &str, is_dir: bool) -> (target: ExportTarget)
    ensures
        target == export_target_of(path_input@, resolved@, is_dir),
{
    let typed = chars_of(path_input);
    let trailing = typed.len() > 0 && (typed[typed.len() - 1] == '/' || typed[typed.len() - 1]
        == '\\');
    if is_dir || trailing {
        ExportTarget::Fallback
    } else if text_ends_with(resolved, TOML_SUFFIX) {
        ExportTarget::AsResolved
    } else {
        ExportTarget::WithExtension
    }
}

} // verus!
