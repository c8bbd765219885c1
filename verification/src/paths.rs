//! Paths as text: joining, the data directory, log files, containment and file names.
use vstd::prelude::*;
use crate::text::{append_str, utf8_len};

verus! {

/// A path with a relative part appended: a `/` goes between them unless the first is empty or
/// already ends with one (what `Path::join` does with a relative part).
pub open spec fn path_join(base: Seq<char>, rel: Seq<char>) -> Seq<char> {
    if base.len() == 0 || base.last() == '/' { base + rel } else { base + "/"@ + rel }
}

/// Appends a relative part to a path.
pub fn join_path(base: &str, rel: &str) -> (r: String)
    ensures
        r@ == path_join(base@, rel@),
{
    let mut r = String::from_str(base);
    let n = base.unicode_len();
    if n == 0 || base.get_char(n - 1) == '/' {
        append_str(&mut r, rel);
    } else {
        append_str(&mut r, "/");
        append_str(&mut r, rel);
    }
    r
}

/// What `Path::parent` gives for a path.
pub uninterp spec fn path_parent(p: Seq<char>) -> Option<Seq<char>>;

/// The path without its last component (`Path::parent`): none for a root or an empty path. The
/// parent is the path with its final component taken off, so it is shorter.
#[verifier::external_body]
pub(crate) fn parent_of(p: &str) -> (r: Option<String>)
    ensures
        r.is_some() == path_parent(p@).is_some(),
        r.is_some() ==> r.unwrap()@ == path_parent(p@).unwrap() && r.unwrap()@.len() < p@.len(),
{
    std::path::Path::new(p).parent().map(|q| q.to_string_lossy().into_owned())
}

/// The user's data directory (`dirs::data_dir`), which depends on the environment; nothing is
/// stated of it.
#[verifier::external_body]
fn user_data_dir() -> (r: Option<String>) {
    dirs::data_dir().map(|d| d.to_string_lossy().into_owned())
}

/// The program's data directory under a user data directory (or the current one).
pub open spec fn mekai_dir(data: Option<Seq<char>>) -> Seq<char> {
    path_join(
        match data {
            Some(d) => d,
            None => "."@,
        },
        "mekai"@,
    )
}

/// The program's data directory under the given user data directory.
pub fn mekai_dir_in(data: Option<&str>) -> (r: String)
    ensures
        r@ == mekai_dir(crate::shell::opt_str_view(data)),
{
    match data {
        Some(d) => join_path(d, "mekai"),
        None => join_path(".", "mekai"),
    }
}

/// The program's data directory, under the user's.
pub fn mekai_data_dir() -> (r: String)
    ensures
        exists|d: Option<Seq<char>>| r@ == mekai_dir(d),
{
    let d = user_data_dir();
    let r = match &d {
        Some(s) => mekai_dir_in(Some(s.as_str())),
        None => mekai_dir_in(None),
    };
    assert(r@ == mekai_dir(match d { Some(s) => Some(s@), None => None }));
    r
}

/// The directory of the log file.
pub fn log_dir() -> (r: String)
    ensures
        exists|d: Option<Seq<char>>| r@ == path_join(mekai_dir(d), "logs"@),
{
    let base = mekai_data_dir();
    join_path(base.as_str(), "logs")
}

/// The log file.
pub fn log_file_path() -> (r: String)
    ensures
        exists|d: Option<Seq<char>>| r@ == path_join(path_join(mekai_dir(d), "logs"@), "mekai.log"@),
{
    let dir = log_dir();
    join_path(dir.as_str(), "mekai.log")
}

/// Whether `child` lies in `parent`, both given in canonical form (absolute, without `.` or `..`
/// parts): the root matches and the parent's components begin the child's.
pub open spec fn within(child: Seq<char>, parent: Seq<char>) -> bool {
    let cc = path_parts(child);
    let pc = path_parts(parent);
    (child.len() > 0 && child[0] == '/') == (parent.len() > 0 && parent[0] == '/') && pc.len() <= cc.len()
        && cc.subrange(0, pc.len() as int) == pc
}

/// The components of a path.
pub open spec fn path_parts(p: Seq<char>) -> Seq<Seq<char>>
    decreases p.len(),
{
    let (done, cur) = parts_scan(p);
    if cur.len() > 0 { done.push(cur) } else { done }
}

/// Scanning a path from the left: the components read and the one being read.
pub open spec fn parts_scan(p: Seq<char>) -> (Seq<Seq<char>>, Seq<char>)
    decreases p.len(),
{
    if p.len() == 0 {
        (Seq::empty(), Seq::empty())
    } else {
        let (done, cur) = parts_scan(p.drop_last());
        if p.last() == '/' {
            if cur.len() > 0 { (done.push(cur), Seq::empty()) } else { (done, Seq::empty()) }
        } else {
            (done, cur.push(p.last()))
        }
    }
}

/// The components of a path.
pub fn split_path(p: &str) -> (r: Vec<String>)
    ensures
        crate::text_split::strings_view(r@) == path_parts(p@),
{
    let mut done: Vec<String> = Vec::new();
    let mut cur = String::new();
    for c in it: p.chars()
        invariant
            it.seq() == p@,
            (crate::text_split::strings_view(done@), cur@) == parts_scan(p@.take(it.index() as int)),
    {
        proof {
            let t = p@.take(it.index() + 1);
            assert(t.drop_last() =~= p@.take(it.index() as int));
            assert(t.last() == c);
        }
        if c == '/' {
            if !cur.as_str().is_empty() {
                let part = cur;
                crate::text_split::push_text(&mut done, part);
                cur = String::new();
            }
        } else {
            crate::text::push_char(&mut cur, c);
        }
    }
    assert(p@.take(p@.len() as int) =~= p@);
    if !cur.as_str().is_empty() {
        crate::text_split::push_text(&mut done, cur);
    }
    done
}

/// Whether `child` lies within `parent`; `None` stands for a path that could not be made
/// canonical, and then the answer is no.
pub fn is_within_directory(child: Option<&str>, parent: Option<&str>) -> (b: bool)
    ensures
        b == match (child, parent) {
            (Some(c), Some(p)) => within(c@, p@),
            _ => false,
        },
{
    if child.is_none() || parent.is_none() {
        return false;
    }
    let c = child.unwrap();
    let p = parent.unwrap();
    {
        {
            let c_root = c.unicode_len() > 0 && c.get_char(0) == '/';
            let p_root = p.unicode_len() > 0 && p.get_char(0) == '/';
            if c_root != p_root {
                return false;
            }
            let cc = split_path(c);
            let pc = split_path(p);
            if pc.len() > cc.len() {
                return false;
            }
            let mut i: usize = 0;
            while i < pc.len()
                invariant
                    i <= pc@.len() <= cc@.len(),
                    child == Some(c),
                    parent == Some(p),
                    crate::text_split::strings_view(cc@) == path_parts(c@),
                    crate::text_split::strings_view(pc@) == path_parts(p@),
                    forall|j: int| 0 <= j < i ==> pc@[j]@ == cc@[j]@,
                decreases pc@.len() - i,
            {
                if !crate::text::str_eq(pc[i].as_str(), cc[i].as_str()) {
                    proof {
                        let cv = crate::text_split::strings_view(cc@);
                        let pv = crate::text_split::strings_view(pc@);
                        assert(cv.subrange(0, pv.len() as int)[i as int] != pv[i as int]);
                        assert(cv.subrange(0, pv.len() as int) != pv);
                        assert(!within(c@, p@));
                    }
                    return false;
                }
                i = i + 1;
            }
            proof {
                let cv = crate::text_split::strings_view(cc@);
                let pv = crate::text_split::strings_view(pc@);
                assert(cv.subrange(0, pv.len() as int) =~= pv);
            }
            true
        }
    }
}

/// What `sanitize_filename::sanitize` makes of a name.
pub uninterp spec fn sanitized(name: Seq<char>) -> Seq<char>;

/// A name made safe as a file name (`sanitize_filename::sanitize`): characters illegal in file
/// names, `/` among them, and control characters are removed, and the result is cut to at most
/// 255 bytes. Windows' reserved names are also handled in a build for Windows, so what `sanitized`
/// names is fixed for the target the crate is built for.
#[verifier::external_body]
pub fn sanitize_path(path: &str) -> (r: String)
    ensures
        r@ == sanitized(path@),
        !r@.contains('/'),
        utf8_len(r@) <= 255,
{
    sanitize_filename::sanitize(path)
}

/// Law: every path lies within itself.
pub proof fn lemma_within_itself(p: Seq<char>)
    ensures
        within(p, p),
{
    assert(path_parts(p).subrange(0, path_parts(p).len() as int) =~= path_parts(p));
}

} // verus!
