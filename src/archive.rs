//! What to do with each entry of a downloaded archive: create a directory,
//! write a file, or refuse an entry whose name would reach outside the
//! destination directory.

use vstd::prelude::*;

use crate::error::EdgarApiError;

verus! {

pub open spec fn is_path_separator(c: char) -> bool {
    c == '/' || c == '\\'
}

/// What the component read so far is: nothing, `.`, `..`, or a name.
#[derive(Debug, Clone, Copy, PartialEq, Eq, Structural)]
pub enum ComponentKind {
    /// No character yet.
    Empty,
    /// `.`, the current directory.
    Dot,
    /// `..`, the parent directory.
    DotDot,
    /// Any other name, which descends one level.
    Normal,
}

/// The state of a walk along an entry name, from the destination directory.
pub struct Walk {
    /// How many levels below the destination the walk stands.
    pub depth: nat,
    /// The component being read.
    pub part: ComponentKind,
    /// Whether the walk has gone above the destination.
    pub escaped: bool,
}

/// The component after one more character.
pub open spec fn extend_part(k: ComponentKind, c: char) -> ComponentKind {
    if c == '.' {
        match k {
            ComponentKind::Empty => ComponentKind::Dot,
            ComponentKind::Dot => ComponentKind::DotDot,
            _ => ComponentKind::Normal,
        }
    } else {
        ComponentKind::Normal
    }
}

/// The walk once the component being read ends: a name descends, `..`
/// ascends (and escapes at the destination itself), `.` and an empty
/// component stay.
pub open spec fn close_part(w: Walk) -> Walk {
    let depth = if w.escaped {
        w.depth
    } else {
        match w.part {
            ComponentKind::Normal => w.depth + 1,
            ComponentKind::DotDot => if w.depth > 0 {
                (w.depth - 1) as nat
            } else {
                w.depth
            },
            _ => w.depth,
        }
    };
    let escaped = w.escaped || (w.part == ComponentKind::DotDot && w.depth == 0);
    Walk { depth, part: ComponentKind::Empty, escaped }
}

/// The walk along the characters of `s`, `/` and `\` separating components.
pub open spec fn walk(s: Seq<char>) -> Walk
    decreases s.len(),
{
    if s.len() == 0 {
        Walk { depth: 0, part: ComponentKind::Empty, escaped: false }
    } else {
        let w = walk(s.drop_last());
        if is_path_separator(s.last()) {
            close_part(w)
        } else {
            Walk { depth: w.depth, part: extend_part(w.part, s.last()), escaped: w.escaped }
        }
    }
}

/// Following the components of `s` one by one from the destination goes
/// above it at some point.
pub open spec fn climbs_out(s: Seq<char>) -> bool {
    close_part(walk(s)).escaped
}

/// An entry name that stays inside the destination: not empty, relative (no
/// leading separator), without NUL characters, and never above the
/// destination while its components are followed one by one (`a/../b` is
/// inside, `a/../../b` is not).
pub open spec fn entry_name_is_safe(s: Seq<char>) -> bool {
    &&& s.len() > 0
    &&& !is_path_separator(s[0])
    &&& forall|i: int| 0 <= i < s.len() ==> s[i] != '\0'
    &&& !climbs_out(s)
}

/// An archive entry to be extracted.
#[derive(Debug, Clone)]
pub struct ArchiveEntry {
    /// The path of the entry, relative to the destination directory.
    pub path: String,
    /// Whether the entry is a directory (its name ends with `/`).
    pub is_dir: bool,
}

fn is_separator(c: char) -> (r: bool)
    ensures
        r == is_path_separator(c),
{
    c == '/' || c == '\\'
}

fn extend(k: ComponentKind, c: char) -> (r: ComponentKind)
    ensures
        r == extend_part(k, c),
{
    if c == '.' {
        match k {
            ComponentKind::Empty => ComponentKind::Dot,
            ComponentKind::Dot => ComponentKind::DotDot,
            _ => ComponentKind::Normal,
        }
    } else {
        ComponentKind::Normal
    }
}

/// Ends the component being read; returns the new depth and whether the walk
/// has escaped.
fn close(depth: usize, part: ComponentKind, escaped: bool) -> (r: (usize, bool))
    requires
        depth < usize::MAX,
    ensures
        ({
            let w = close_part(Walk { depth: depth as nat, part, escaped });
            r.0 as nat == w.depth && r.1 == w.escaped
        }),
{
    if escaped {
        (depth, true)
    } else {
        match part {
            ComponentKind::Normal => (depth + 1, false),
            ComponentKind::DotDot => {
                if depth > 0 {
                    (depth - 1, false)
                } else {
                    (depth, true)
                }
            },
            _ => (depth, false),
        }
    }
}

fn name_is_safe(s: &str) -> (r: bool)
    ensures
        r == entry_name_is_safe(s@),
{
    let len = s.unicode_len();
    if len == 0 || is_separator(s.get_char(0)) {
        return false;
    }
    let mut depth: usize = 0;
    let mut part = ComponentKind::Empty;
    let mut escaped = false;
    let mut i: usize = 0;
    assert(s@.subrange(0, 0) =~= Seq::<char>::empty());
    while i < len
        invariant
            len == s@.len(),
            i <= len,
            2 * depth + (if part == ComponentKind::Normal {
                1int
            } else {
                0int
            }) <= i,
            forall|k: int| 0 <= k < i ==> s@[k] != '\0',
            walk(s@.subrange(0, i as int)) == (Walk { depth: depth as nat, part, escaped }),
        decreases len - i,
    {
        let c = s.get_char(i);
        if c == '\0' {
            return false;
        }
        let ghost prev = s@.subrange(0, i as int);
        let ghost next = s@.subrange(0, i + 1);
        assert(next.drop_last() =~= prev);
        assert(next.last() == c);
        if is_separator(c) {
            let (d, e) = close(depth, part, escaped);
            depth = d;
            escaped = e;
            part = ComponentKind::Empty;
        } else {
            part = extend(part, c);
        }
        i = i + 1;
    }
    assert(s@.subrange(0, len as int) =~= s@);
    let (_, e) = close(depth, part, escaped);
    !e
}

/// The entry called `name`, or an archive error where the name would reach
/// outside the destination directory.
pub fn plan_entry(name: &str) -> (r: Result<ArchiveEntry, EdgarApiError>)
    ensures
        r is Ok <==> entry_name_is_safe(name@),
        r matches Ok(e) ==> e.path@ == name@ && e.is_dir == (name@.last() == '/'),
        r matches Err(err) ==> (err matches EdgarApiError::ZipError(m) && m@
            == "Invalid file path in ZIP"@),
{
    if !name_is_safe(name) {
        return Err(EdgarApiError::zip("Invalid file path in ZIP"));
    }
    let len = name.unicode_len();
    let is_dir = name.get_char(len - 1) == '/';
    Ok(ArchiveEntry { path: String::from_str(name), is_dir })
}

} // verus!
