//! The code tools' argument records, and the path check every file tool
//! runs before touching anything: the requested path must stay inside the
//! project directory.

use vstd::prelude::*;

use crate::notify::{Notification, NotifyLevel};
use crate::text::{split_char, str_eq};

verus! {

/// Arguments of the tool that merges code into a file.
#[derive(Debug, Clone)]
pub struct CodeModifier {
    pub file: String,
    pub code: String,
}

/// Arguments of the tool that reads a file back.
#[derive(Debug, Clone)]
pub struct CodeRetriever {
    pub file: String,
}

/// Arguments of the tool that lists a directory tree.
#[derive(Debug, Clone)]
pub struct CodeTree {
    pub directory: Option<String>,
}

/// The three code tools together.
#[derive(Debug, Clone)]
pub struct CodeRefactorisation(pub CodeModifier, pub CodeRetriever, pub CodeTree);

/// Relies on std::path::Path::is_relative: whether the path has no root.
#[verifier::external_body]
pub(crate) fn path_is_relative(path: &str) -> (r: bool) {
    std::path::Path::new(path).is_relative()
}

/// Relies on std::path::Path::canonicalize on the current directory: the
/// project root as an absolute path, when the system can resolve it. The
/// result depends on the process's working directory.
#[verifier::external_body]
pub(crate) fn current_dir_canonical() -> (r: Option<String>) {
    match std::path::Path::new(".").canonicalize() {
        Ok(p) => match p.to_str() {
            Some(s) => Some(s.to_owned()),
            None => None,
        },
        Err(_) => None,
    }
}

/// Relies on std::path::absolute: the path made absolute against the working
/// directory, without touching the file system. The result depends on the
/// process's working directory.
#[verifier::external_body]
pub(crate) fn path_absolute(path: &str) -> (r: Option<String>) {
    match std::path::absolute(std::path::Path::new(path)) {
        Ok(p) => match p.to_str() {
            Some(s) => Some(s.to_owned()),
            None => None,
        },
        Err(_) => None,
    }
}

/// Normalises an absolute path lexically: `.` segments leave, `..` segments
/// pop the segment before them. `None` when a `..` would climb past the
/// root.
pub fn normalize_lexical(path: &str) -> (r: Option<String>) {
    if !crate::text::starts_with(path, "/") {
        return None;
    }
    let segments = split_char(path, '/');
    let mut kept: Vec<String> = Vec::new();
    let mut i: usize = 0;
    while i < segments.len()
        decreases segments@.len() - i,
    {
        let seg = &segments[i];
        if seg.unicode_len() == 0 || str_eq(seg.as_str(), ".") {
            // Empty segments and `.` change nothing.
        } else if str_eq(seg.as_str(), "..") {
            if kept.len() == 0 {
                return None;
            }
            let _ = kept.pop();
        } else {
            kept.push(seg.clone());
        }
        i = i + 1;
    }
    let mut out = String::new();
    if kept.len() == 0 {
        crate::text::push_char(&mut out, '/');
        return Some(out);
    }
    let mut j: usize = 0;
    while j < kept.len()
        decreases kept@.len() - j,
    {
        crate::text::push_char(&mut out, '/');
        out.append(kept[j].as_str());
        j = j + 1;
    }
    Some(out)
}

/// Whether `path` lies at or under `base`, comparing whole path segments.
pub fn path_starts_with(path: &str, base: &str) -> (r: bool) {
    if !crate::text::starts_with(path, base) {
        return false;
    }
    let plen = path.unicode_len();
    let blen = base.unicode_len();
    if plen == blen {
        return true;
    }
    // The next character must open a new segment.
    path.get_char(blen) == '/'
}

/// The non-empty segments of a slash-separated path.
pub fn path_components(path: &str) -> (r: Vec<String>) {
    let raw = split_char(path, '/');
    let mut out: Vec<String> = Vec::new();
    let mut i: usize = 0;
    while i < raw.len()
        decreases raw@.len() - i,
    {
        if raw[i].as_str().unicode_len() > 0 {
            out.push(raw[i].clone());
        }
        i = i + 1;
    }
    out
}

/// Character-wise order on segment names.
fn str_lt(a: &str, b: &str) -> (r: bool) {
    let la = a.unicode_len();
    let lb = b.unicode_len();
    let n = if la < lb {
        la
    } else {
        lb
    };
    let mut i: usize = 0;
    while i < n
        invariant
            i <= n,
            n <= a@.len(),
            n <= b@.len(),
        decreases n - i,
    {
        let ca = a.get_char(i) as u32;
        let cb = b.get_char(i) as u32;
        if ca < cb {
            return true;
        }
        if ca > cb {
            return false;
        }
        i = i + 1;
    }
    la < lb
}

/// Segment-wise order on component lists.
fn comps_lt(a: &Vec<String>, b: &Vec<String>) -> (r: bool) {
    let la = a.len();
    let lb = b.len();
    let n = if la < lb {
        la
    } else {
        lb
    };
    let mut i: usize = 0;
    while i < n
        invariant
            i <= n,
            n <= a@.len(),
            n <= b@.len(),
        decreases n - i,
    {
        if str_lt(a[i].as_str(), b[i].as_str()) {
            return true;
        }
        if str_lt(b[i].as_str(), a[i].as_str()) {
            return false;
        }
        i = i + 1;
    }
    la < lb
}

/// Orders component lists segment-wise, keeping equals adjacent.
fn sort_components(v: Vec<Vec<String>>) -> (r: Vec<Vec<String>>)
    ensures
        r@.len() == v@.len(),
{
    let mut work = v;
    let mut out: Vec<Vec<String>> = Vec::new();
    while work.len() > 0
        invariant
            out@.len() + work@.len() == v@.len(),
        decreases work.len(),
    {
        let mut best: usize = 0;
        let mut m: usize = 1;
        while m < work.len()
            invariant
                work@.len() > 0,
                best < m <= work@.len(),
            decreases work.len() - m,
        {
            if comps_lt(&work[m], &work[best]) {
                best = m;
            }
            m = m + 1;
        }
        let x = work.remove(best);
        out.push(x);
    }
    out
}

/// Whether the first `upto` segments of `a` and `b` agree.
fn prefix_eq(a: &Vec<String>, b: &Vec<String>, upto: usize) -> (r: bool) {
    if a.len() < upto || b.len() < upto {
        return false;
    }
    let mut i: usize = 0;
    while i < upto
        invariant
            i <= upto,
            upto <= a@.len(),
            upto <= b@.len(),
        decreases upto - i,
    {
        if !str_eq(a[i].as_str(), b[i].as_str()) {
            return false;
        }
        i = i + 1;
    }
    true
}

/// Whether the node at depth `d` of entry `i` opens here: the entry before
/// does not already hold it.
fn node_is_new(comps: &Vec<Vec<String>>, i: usize, d: usize) -> (r: bool)
    requires
        i < comps@.len(),
{
    if i == 0 {
        return true;
    }
    let prev = &comps[i - 1];
    if prev.len() <= d {
        return true;
    }
    if d < usize::MAX {
        !prefix_eq(prev, &comps[i], d + 1)
    } else {
        true
    }
}

/// Whether the node at depth `d` of entry `i` is the last child of its
/// parent: no later entry under the same parent carries another name there.
fn node_is_last(comps: &Vec<Vec<String>>, i: usize, d: usize) -> (r: bool)
    requires
        i < comps@.len(),
        d < comps@[i as int]@.len(),
{
    let n = comps.len();
    let mut j: usize = i + 1;
    while j < n
        invariant
            i < j,
            n == comps@.len(),
            i < comps@.len(),
            d < comps@[i as int]@.len(),
        decreases n - j,
    {
        if comps[j].len() > d && prefix_eq(&comps[j], &comps[i], d) {
            if !str_eq(comps[j][d].as_str(), comps[i][d].as_str()) {
                return false;
            }
        }
        j = j + 1;
    }
    true
}

/// Draws the file tree of the given paths, the way a recursive directory
/// listing shows it: one line per directory or file, children indented
/// under their parent, the last child of each parent marked differently
/// from its siblings. Directories carry a trailing slash.
pub fn build_tree(target_dir: &str, paths: Vec<String>) -> (r: String) {
    let mut comps: Vec<Vec<String>> = Vec::new();
    let mut p: usize = 0;
    while p < paths.len()
        decreases paths@.len() - p,
    {
        let c = path_components(paths[p].as_str());
        if c.len() > 0 {
            comps.push(c);
        }
        p = p + 1;
    }
    let comps = sort_components(comps);

    let mut tree = String::new();
    if target_dir.unicode_len() == 0 {
        tree.append(".");
    } else {
        tree.append(target_dir);
    }
    crate::text::push_char(&mut tree, '\n');

    let mut i: usize = 0;
    while i < comps.len()
        decreases comps@.len() - i,
    {
        let entry_len = comps[i].len();
        let mut d: usize = 0;
        while d < entry_len
            invariant
                i < comps@.len(),
                entry_len == comps@[i as int]@.len(),
            decreases entry_len - d,
        {
            if node_is_new(&comps, i, d) {
                let mut a: usize = 0;
                while a < d
                    invariant
                        a <= d,
                        d < entry_len,
                        i < comps@.len(),
                        entry_len == comps@[i as int]@.len(),
                    decreases d - a,
                {
                    if node_is_last(&comps, i, a) {
                        tree.append("    ");
                    } else {
                        tree.append("│   ");
                    }
                    a = a + 1;
                }
                if node_is_last(&comps, i, d) {
                    tree.append("└── ");
                } else {
                    tree.append("├── ");
                }
                tree.append(comps[i][d].as_str());
                if d + 1 < entry_len {
                    crate::text::push_char(&mut tree, '/');
                }
                crate::text::push_char(&mut tree, '\n');
            }
            d = d + 1;
        }
        i = i + 1;
    }
    tree
}

/// Resolves a tool's file argument to an absolute path inside the project
/// directory. A path that is not relative, climbs out of the project, or
/// cannot be resolved is refused with the reason.
pub fn get_path(file: &str) -> (r: Result<String, Notification>)
    ensures
        match r {
            Ok(_) => true,
            Err(n) => n.level == NotifyLevel::Warn || n.level == NotifyLevel::Error,
        },
{
    if !path_is_relative(file) {
        return Err(
            Notification::new(
                NotifyLevel::Warn,
                "The file's path must be relative.".to_owned(),
                String::new(),
            ),
        );
    }
    let current_path = match current_dir_canonical() {
        Some(p) => p,
        None => {
            return Err(
                Notification::new(
                    NotifyLevel::Error,
                    "Can't resolve the project directory.".to_owned(),
                    String::new(),
                ),
            );
        },
    };
    let absolute = match path_absolute(file) {
        Some(p) => p,
        None => {
            return Err(
                Notification::new(
                    NotifyLevel::Error,
                    "Can't make the path absolute.".to_owned(),
                    String::new(),
                ),
            );
        },
    };
    let target = match normalize_lexical(absolute.as_str()) {
        Some(p) => p,
        None => {
            return Err(
                Notification::new(
                    NotifyLevel::Error,
                    "Can't normalize the path (lexically).".to_owned(),
                    String::new(),
                ),
            );
        },
    };
    if !path_starts_with(target.as_str(), current_path.as_str()) {
        return Err(
            Notification::new(
                NotifyLevel::Warn,
                "The file can't be outside the project directory.".to_owned(),
                String::new(),
            ),
        );
    }
    Ok(target)
}

} // verus!
