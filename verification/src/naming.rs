//! File names of a download: the final name and the temporary name it is written under.
//!
//! Both are derived from the display metadata of the resolved target alone, so that
//! running the same download again lands on the same two paths.

use vstd::prelude::*;
use vstd::string::{StrSliceExecFns, StringExecFns};

verus! {

/// What the resolver hands over for one item: display metadata and where to fetch from.
#[derive(Debug)]
pub struct ResolvedTarget {
    pub display_name: String,
    pub owner: String,
    pub source_locator: String,
}

/// The path separator, which may not occur in a file name.
pub const SEPARATOR: char = '/';

/// What stands in for a path separator.
pub const REPLACEMENT: char = '-';

/// `s` with every path separator replaced.
pub open spec fn sanitized(s: Seq<char>) -> Seq<char> {
    s.map_values(|c: char| if c == SEPARATOR { REPLACEMENT } else { c })
}

/// The extension of a finished download.
pub open spec fn final_suffix() -> Seq<char> {
    seq!['.', 'm', 'p', '3']
}

/// What is appended to the final name while the file is still being written.
pub open spec fn temp_suffix() -> Seq<char> {
    seq!['.', 't', 'm', 'p']
}

/// `path` ends with `suffix`.
pub open spec fn ends_with(path: Seq<char>, suffix: Seq<char>) -> bool {
    path.len() >= suffix.len() && path.subrange(path.len() - suffix.len(), path.len() as int)
        == suffix
}

/// `path` names a file that is still being written.
pub open spec fn is_temp_path(path: Seq<char>) -> bool {
    ends_with(path, temp_suffix())
}

/// `path` names a finished download.
pub open spec fn is_final_path(path: Seq<char>) -> bool {
    ends_with(path, final_suffix())
}

/// `{display_name}-{owner}.mp3`, both parts sanitized.
pub open spec fn final_name(display_name: Seq<char>, owner: Seq<char>) -> Seq<char> {
    sanitized(display_name) + seq!['-'] + sanitized(owner) + final_suffix()
}

/// The final name with the temporary suffix appended.
pub open spec fn temp_name(display_name: Seq<char>, owner: Seq<char>) -> Seq<char> {
    final_name(display_name, owner) + temp_suffix()
}

/// Replaces every path separator in `s`.
pub fn sanitize(s: &str) -> (out: String)
    ensures
        out@ == sanitized(s@),
{
    broadcast use vstd::string::axiom_spec_iter;

    let mut out = String::new();
    for c in it: s.chars()
        invariant
            it.seq() == s@,
            out@ == sanitized(s@.take(it.index())),
    {
        if c == SEPARATOR {
            out.push(REPLACEMENT);
        } else {
            out.push(c);
        }
    }
    out
}

/// The name under which a finished download is stored.
pub fn final_file_name(display_name: &str, owner: &str) -> (name: String)
    ensures
        name@ == final_name(display_name@, owner@),
{
    let mut name = sanitize(display_name);
    let safe_owner = sanitize(owner);
    proof {
        reveal_strlit("-");
        reveal_strlit(".mp3");
    }
    name.append("-");
    name.append(safe_owner.as_str());
    name.append(".mp3");
    name
}

/// The name under which a download is written before it is renamed.
pub fn temp_file_name(display_name: &str, owner: &str) -> (name: String)
    ensures
        name@ == temp_name(display_name@, owner@),
{
    let mut name = final_file_name(display_name, owner);
    proof {
        reveal_strlit(".tmp");
    }
    name.append(".tmp");
    name
}

/// Whether `path` carries the temporary suffix.
pub fn has_temp_suffix(path: &str) -> (yes: bool)
    ensures
        yes == is_temp_path(path@),
{
    let n: usize = path.unicode_len();
    if n < 4 {
        return false;
    }
    let yes = path.get_char(n - 4) == '.' && path.get_char(n - 3) == 't' && path.get_char(n - 2)
        == 'm' && path.get_char(n - 1) == 'p';
    proof {
        let tail = path@.subrange(n - 4, n as int);
        if yes {
            assert(tail == temp_suffix());
        } else {
            assert(tail[0] == path@[n - 4] && tail[1] == path@[n - 3] && tail[2] == path@[n - 2]
                && tail[3] == path@[n - 1]);
        }
    }
    yes
}

impl ResolvedTarget {
    /// The final name of this target's download.
    pub open spec fn final_name(&self) -> Seq<char> {
        final_name(self.display_name@, self.owner@)
    }

    /// The temporary name of this target's download.
    pub open spec fn temp_name(&self) -> Seq<char> {
        temp_name(self.display_name@, self.owner@)
    }

    /// The name under which this target's finished download is stored.
    pub fn final_file_name(&self) -> (name: String)
        ensures
            name@ == self.final_name(),
    {
        final_file_name(self.display_name.as_str(), self.owner.as_str())
    }

    /// The name under which this target's download is written before it is renamed.
    pub fn temp_file_name(&self) -> (name: String)
        ensures
            name@ == self.temp_name(),
    {
        temp_file_name(self.display_name.as_str(), self.owner.as_str())
    }
}

/// Sanitizing leaves no path separator behind and keeps the length.
pub proof fn lemma_sanitized_has_no_separator(s: Seq<char>)
    ensures
        sanitized(s).len() == s.len(),
        !sanitized(s).contains(SEPARATOR),
        forall|i: int| 0 <= i < s.len() && s[i] != SEPARATOR ==> sanitized(s)[i] == s[i],
        forall|i: int| 0 <= i < s.len() && s[i] == SEPARATOR ==> sanitized(s)[i] == REPLACEMENT,
{
}

/// Neither name of a download holds a path separator: both name a file in the
/// working directory.
pub proof fn lemma_names_have_no_separator(display_name: Seq<char>, owner: Seq<char>)
    ensures
        !final_name(display_name, owner).contains(SEPARATOR),
        !temp_name(display_name, owner).contains(SEPARATOR),
{
    lemma_sanitized_has_no_separator(display_name);
    lemma_sanitized_has_no_separator(owner);
    let f = final_name(display_name, owner);
    let t = temp_name(display_name, owner);
    let a = sanitized(display_name);
    let b = sanitized(owner);
    assert forall|i: int| 0 <= i < f.len() implies f[i] != SEPARATOR by {
        if i < a.len() {
            assert(a.contains(a[i]));
        } else if a.len() < i < a.len() + 1 + b.len() {
            assert(b.contains(b[i - a.len() - 1]));
        }
    }
    assert forall|i: int| 0 <= i < t.len() implies t[i] != SEPARATOR by {
        if i < f.len() {
            assert(t[i] == f[i]);
        }
    }
}

/// A temporary path is never a final path: what removes temporary files cannot
/// remove a finished download.
pub proof fn lemma_temp_path_is_not_final(path: Seq<char>)
    requires
        is_temp_path(path),
    ensures
        !is_final_path(path),
{
    let n = path.len() as int;
    assert(path.subrange(n - 4, n)[3] == 'p');
}

/// The final name of a download is a final path, its temporary name a temporary
/// path, and the temporary name of one download is the final name of none.
pub proof fn lemma_names_are_classified(display_name: Seq<char>, owner: Seq<char>)
    ensures
        is_final_path(final_name(display_name, owner)),
        is_temp_path(temp_name(display_name, owner)),
        !is_temp_path(final_name(display_name, owner)),
        !is_final_path(temp_name(display_name, owner)),
        forall|d: Seq<char>, o: Seq<char>| temp_name(display_name, owner) != final_name(d, o),
{
    let f = final_name(display_name, owner);
    let t = temp_name(display_name, owner);
    assert(f.subrange(f.len() - 4, f.len() as int) == final_suffix());
    assert(t.subrange(t.len() - 4, t.len() as int) == temp_suffix());
    lemma_temp_path_is_not_final(t);
    if is_temp_path(f) {
        lemma_temp_path_is_not_final(f);
    }
    assert forall|d: Seq<char>, o: Seq<char>| t != final_name(d, o) by {
        let g = final_name(d, o);
        assert(g.subrange(g.len() - 4, g.len() as int) == final_suffix());
    }
}

/// Two downloads share their temporary name exactly when they share their
/// final name: the registry tells two items apart as far as their files differ.
pub proof fn lemma_temp_names_collide_with_final_names(
    display_name: Seq<char>,
    owner: Seq<char>,
    other_name: Seq<char>,
    other_owner: Seq<char>,
)
    ensures
        temp_name(display_name, owner) == temp_name(other_name, other_owner) <==> final_name(
            display_name,
            owner,
        ) == final_name(other_name, other_owner),
{
    let f = final_name(display_name, owner);
    let g = final_name(other_name, other_owner);
    if f + temp_suffix() == g + temp_suffix() {
        assert((f + temp_suffix()).len() == f.len() + 4);
        assert((g + temp_suffix()).len() == g.len() + 4);
        assert((f + temp_suffix()).subrange(0, f.len() as int) == f);
        assert((g + temp_suffix()).subrange(0, g.len() as int) == g);
    }
}

/// Two targets with the same display metadata are stored under the same names,
/// wherever they are fetched from: a second run overwrites what the first one wrote.
pub proof fn lemma_names_depend_on_metadata_alone(a: ResolvedTarget, b: ResolvedTarget)
    requires
        a.display_name@ == b.display_name@,
        a.owner@ == b.owner@,
    ensures
        a.final_name() == b.final_name(),
        a.temp_name() == b.temp_name(),
{
}

} // verus!
