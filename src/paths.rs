//! Lexical resolution of the project-scope path stored in the machine file,
//! against the directory of the machine file itself.
use vstd::prelude::*;

verus! {

/// Whether `p` starts at the file system root.
pub open spec fn is_absolute(p: Seq<char>) -> bool {
    p.len() > 0 && p[0] == '/'
}

/// The directory reached from `dir` by the path component `c`: an empty
/// component or `.` stays, `..` goes up one level, and any other name goes
/// down into it. Above the top, `..` stays at the root of an `absolute` path
/// and is kept in a relative one.
pub open spec fn step(absolute: bool, dir: Seq<Seq<char>>, c: Seq<char>) -> Seq<Seq<char>> {
    if c.len() == 0 || c == seq!['.'] {
        dir
    } else if c == seq!['.', '.'] {
        if dir.len() > 0 && dir.last() != seq!['.', '.'] {
            dir.drop_last()
        } else if absolute {
            dir
        } else {
            dir.push(c)
        }
    } else {
        dir.push(c)
    }
}

/// Walks from `dir` along the `/`-separated components of `cur + rest`,
/// where `cur` is the component being read.
pub open spec fn walk(absolute: bool, dir: Seq<Seq<char>>, cur: Seq<char>, rest: Seq<char>) -> Seq<
    Seq<char>,
>
    decreases rest.len(),
{
    if rest.len() == 0 {
        step(absolute, dir, cur)
    } else if rest[0] == '/' {
        walk(absolute, step(absolute, dir, cur), seq![], rest.drop_first())
    } else {
        walk(absolute, dir, cur.push(rest[0]), rest.drop_first())
    }
}

/// The names of `dir` each preceded by `/`.
pub open spec fn slash_joined(dir: Seq<Seq<char>>) -> Seq<char>
    decreases dir.len(),
{
    if dir.len() == 0 {
        seq![]
    } else {
        slash_joined(dir.drop_last()) + seq!['/'] + dir.last()
    }
}

/// The names of `dir` separated by `/`.
pub open spec fn names_joined(dir: Seq<Seq<char>>) -> Seq<char>
    decreases dir.len(),
{
    if dir.len() == 0 {
        seq![]
    } else if dir.len() == 1 {
        dir[0]
    } else {
        names_joined(dir.drop_last()) + seq!['/'] + dir.last()
    }
}

/// The text of the directory `dir`, from the root when `absolute`.
pub open spec fn path_text(absolute: bool, dir: Seq<Seq<char>>) -> Seq<char> {
    if absolute {
        if dir.len() == 0 {
            seq!['/']
        } else {
            slash_joined(dir)
        }
    } else {
        names_joined(dir)
    }
}

/// The directory holding the file `file`, as names.
pub open spec fn parent_names(file: Seq<char>) -> Seq<Seq<char>> {
    let names = walk(is_absolute(file), seq![], seq![], file);
    if names.len() > 0 {
        names.drop_last()
    } else {
        names
    }
}

/// Where the stored path `stored` leads: itself when absolute, otherwise the
/// directory of `root_file` followed along `stored`.
pub open spec fn resolved_path(stored: Seq<char>, root_file: Seq<char>) -> Seq<char> {
    if is_absolute(stored) {
        stored
    } else {
        path_text(
            is_absolute(root_file),
            walk(is_absolute(root_file), parent_names(root_file), seq![], stored),
        )
    }
}

/// The names of a `Vec<String>`.
pub open spec fn names_of(v: Seq<String>) -> Seq<Seq<char>> {
    v.map_values(|s: String| s@)
}

fn is_dot(c: &str) -> (r: bool)
    ensures
        r == (c@ == seq!['.']),
{
    let r = c.unicode_len() == 1 && c.get_char(0) == '.';
    proof {
        if c@.len() == 1 && c@[0] == '.' {
            assert(c@ =~= seq!['.']);
        }
    }
    r
}

fn is_dot_dot(c: &str) -> (r: bool)
    ensures
        r == (c@ == seq!['.', '.']),
{
    let r = c.unicode_len() == 2 && c.get_char(0) == '.' && c.get_char(1) == '.';
    proof {
        if c@.len() == 2 && c@[0] == '.' && c@[1] == '.' {
            assert(c@ =~= seq!['.', '.']);
        }
    }
    r
}

fn step_into(absolute: bool, dir: &mut Vec<String>, c: &str)
    ensures
        names_of(final(dir)@) == step(absolute, names_of(old(dir)@), c@),
{
    if c.unicode_len() == 0 || is_dot(c) {
    } else if is_dot_dot(c) {
        let n = dir.len();
        if n > 0 && !is_dot_dot(dir[n - 1].as_str()) {
            dir.pop();
            proof {
                assert(names_of(dir@) =~= names_of(old(dir)@).drop_last());
            }
        } else if !absolute {
            dir.push(c.to_string());
            proof {
                assert(names_of(dir@) =~= names_of(old(dir)@).push(c@));
            }
        }
    } else {
        dir.push(c.to_string());
        proof {
            assert(names_of(dir@) =~= names_of(old(dir)@).push(c@));
        }
    }
}

/// Walks `dir` along the `/`-separated components of `text`.
fn walk_into(absolute: bool, dir: &mut Vec<String>, text: &str)
    ensures
        names_of(final(dir)@) == walk(absolute, names_of(old(dir)@), seq![], text@),
{
    let n = text.unicode_len();
    let mut start: usize = 0;
    let mut i: usize = 0;
    proof {
        assert(text@.subrange(0, 0) =~= seq![]);
        assert(text@.subrange(0, n as int) =~= text@);
    }
    while i < n
        invariant
            n == text@.len(),
            start <= i <= n,
            walk(absolute, names_of(old(dir)@), seq![], text@) == walk(
                absolute,
                names_of(dir@),
                text@.subrange(start as int, i as int),
                text@.subrange(i as int, n as int),
            ),
        decreases n - i,
    {
        let ghost rest = text@.subrange(i as int, n as int);
        assert(rest[0] == text@[i as int]);
        assert(rest.drop_first() =~= text@.subrange(i as int + 1, n as int));
        if text.get_char(i) == '/' {
            let c = text.substring_char(start, i);
            step_into(absolute, dir, c);
            start = i + 1;
            assert(text@.subrange(start as int, start as int) =~= seq![]);
        } else {
            assert(text@.subrange(start as int, i as int).push(text@[i as int]) =~= text@.subrange(
                start as int,
                i as int + 1,
            ));
        }
        i = i + 1;
    }
    let c = text.substring_char(start, n);
    step_into(absolute, dir, c);
    proof {
        assert(text@.subrange(n as int, n as int).len() == 0);
    }
}

/// The text of the directory `dir`, from the root when `absolute`.
fn dir_text(absolute: bool, dir: &Vec<String>) -> (r: String)
    ensures
        r@ == path_text(absolute, names_of(dir@)),
{
    let mut out = String::new();
    if absolute && dir.len() == 0 {
        out.append("/");
        proof {
            reveal_strlit("/");
        }
        return out;
    }
    let mut i: usize = 0;
    while i < dir.len()
        invariant
            0 <= i <= dir@.len(),
            absolute ==> out@ == slash_joined(names_of(dir@.subrange(0, i as int))),
            !absolute ==> out@ == names_joined(names_of(dir@.subrange(0, i as int))),
        decreases dir@.len() - i,
    {
        let ghost prev = names_of(dir@.subrange(0, i as int));
        let ghost next = names_of(dir@.subrange(0, i as int + 1));
        assert(next.drop_last() =~= prev);
        assert(next.last() == dir@[i as int]@);
        if absolute || i > 0 {
            out.append("/");
            proof {
                reveal_strlit("/");
            }
        }
        out.append(dir[i].as_str());
        proof {
            if !absolute && i == 0 {
                assert(out@ =~= next[0]);
            }
        }
        i = i + 1;
    }
    proof {
        assert(dir@.subrange(0, dir@.len() as int) =~= dir@);
    }
    out
}

/// Where the stored project path `stored` leads, relative paths being taken
/// from the directory of `root_file`.
pub fn resolve_path(stored: &str, root_file: &str) -> (r: String)
    ensures
        r@ == resolved_path(stored@, root_file@),
{
    if stored.unicode_len() > 0 && stored.get_char(0) == '/' {
        return stored.to_string();
    }
    let absolute = root_file.unicode_len() > 0 && root_file.get_char(0) == '/';
    let mut dir: Vec<String> = Vec::new();
    proof {
        assert(names_of(dir@) =~= seq![]);
    }
    walk_into(absolute, &mut dir, root_file);
    if dir.len() > 0 {
        let ghost whole = dir@;
        dir.pop();
        proof {
            assert(names_of(dir@) =~= names_of(whole).drop_last());
        }
    }
    walk_into(absolute, &mut dir, stored);
    dir_text(absolute, &dir)
}

} // verus!
