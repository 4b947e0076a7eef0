//! Argument lists and the commands handed to the external transfer tools.

use vstd::prelude::*;
use vstd::string::*;

verus! {

/// The character contents of a list of strings.
pub open spec fn texts(v: Seq<String>) -> Seq<Seq<char>> {
    v.map_values(|s: String| s@)
}

/// One argument per entry of `items`: `prefix` followed by the entry.
pub open spec fn prefixed(prefix: Seq<char>, items: Seq<String>) -> Seq<Seq<char>> {
    Seq::new(items.len(), |i: int| prefix + items[i]@)
}

/// Two arguments per entry of `items`: `flag`, then `prefix` followed by the entry.
pub open spec fn flagged(flag: Seq<char>, prefix: Seq<char>, items: Seq<String>) -> Seq<Seq<char>> {
    Seq::new(
        2 * items.len(),
        |i: int|
            if i % 2 == 0 {
                flag
            } else {
                prefix + items[i / 2]@
            },
    )
}

/// A program and the arguments it is to be started with.
#[derive(Debug)]
pub struct SyncCommand {
    pub program: String,
    pub args: Vec<String>,
}

impl SyncCommand {
    /// The program name as characters.
    pub open spec fn spec_program(&self) -> Seq<char> {
        self.program@
    }

    /// The arguments as characters.
    pub open spec fn spec_args(&self) -> Seq<Seq<char>> {
        texts(self.args@)
    }
}

/// Appends one argument.
pub fn push_arg(args: &mut Vec<String>, arg: String)
    ensures
        texts(final(args)@) == texts(old(args)@).push(arg@),
        final(args)@ == old(args)@.push(arg),
{
    args.push(arg);
    proof {
        assert(texts(args@) =~= texts(old(args)@).push(arg@));
    }
}

/// Appends a literal argument.
pub fn push_text(args: &mut Vec<String>, arg: &str)
    ensures
        texts(final(args)@) == texts(old(args)@).push(arg@),
{
    push_arg(args, String::from_str(arg));
}

/// Appends `prefix + item` for every item.
pub fn push_prefixed(args: &mut Vec<String>, prefix: &str, items: &Vec<String>)
    ensures
        texts(final(args)@) == texts(old(args)@) + prefixed(prefix@, items@),
{
    let n: usize = items.len();
    let mut i: usize = 0;
    proof {
        assert(texts(args@) =~= texts(old(args)@) + prefixed(prefix@, items@).subrange(0, 0));
    }
    while i < n
        invariant
            n == items@.len(),
            i <= n,
            texts(args@) == texts(old(args)@) + prefixed(prefix@, items@).subrange(0, i as int),
        decreases n - i,
    {
        let mut a = String::from_str(prefix);
        a.append(items[i].as_str());
        push_arg(args, a);
        proof {
            assert(texts(args@) =~= texts(old(args)@) + prefixed(prefix@, items@).subrange(
                0,
                i + 1,
            ));
        }
        i = i + 1;
    }
    proof {
        assert(prefixed(prefix@, items@).subrange(0, n as int) =~= prefixed(prefix@, items@));
    }
}

/// Appends `flag` and `prefix + item` for every item.
pub fn push_flagged(args: &mut Vec<String>, flag: &str, prefix: &str, items: &Vec<String>)
    ensures
        texts(final(args)@) == texts(old(args)@) + flagged(flag@, prefix@, items@),
{
    let n: usize = items.len();
    let mut i: usize = 0;
    proof {
        assert(texts(args@) =~= texts(old(args)@) + flagged(flag@, prefix@, items@).subrange(0, 0));
    }
    while i < n
        invariant
            n == items@.len(),
            i <= n,
            texts(args@) == texts(old(args)@) + flagged(flag@, prefix@, items@).subrange(
                0,
                2 * i,
            ),
        decreases n - i,
    {
        push_text(args, flag);
        let mut a = String::from_str(prefix);
        a.append(items[i].as_str());
        push_arg(args, a);
        proof {
            assert(texts(args@) =~= texts(old(args)@) + flagged(flag@, prefix@, items@).subrange(
                0,
                2 * (i + 1),
            ));
        }
        i = i + 1;
    }
    proof {
        assert(flagged(flag@, prefix@, items@).subrange(0, 2 * n) =~= flagged(
            flag@,
            prefix@,
            items@,
        ));
    }
}

/// Appends a copy of every item.
pub fn push_all(args: &mut Vec<String>, items: &Vec<String>)
    ensures
        texts(final(args)@) == texts(old(args)@) + texts(items@),
        final(args)@ == old(args)@ + items@,
{
    let n: usize = items.len();
    let mut i: usize = 0;
    proof {
        assert(args@ =~= old(args)@ + items@.subrange(0, 0));
    }
    while i < n
        invariant
            n == items@.len(),
            i <= n,
            args@ == old(args)@ + items@.subrange(0, i as int),
        decreases n - i,
    {
        args.push(items[i].clone());
        proof {
            assert(args@ =~= old(args)@ + items@.subrange(0, i + 1));
        }
        i = i + 1;
    }
    proof {
        assert(items@.subrange(0, n as int) =~= items@);
        assert(texts(args@) =~= texts(old(args)@) + texts(items@));
    }
}

/// A copy of a list of strings.
pub fn clone_texts(items: &Vec<String>) -> (r: Vec<String>)
    ensures
        r@ == items@,
{
    let mut r: Vec<String> = Vec::new();
    push_all(&mut r, items);
    proof {
        assert(r@ =~= items@);
    }
    r
}

/// A copy of an optional string.
pub fn clone_opt(o: &Option<String>) -> (r: Option<String>)
    ensures
        r == *o,
{
    match o {
        Some(s) => Some(s.clone()),
        None => None,
    }
}

/// The parts in order, with `sep` between neighbours.
pub open spec fn join_with(parts: Seq<Seq<char>>, sep: Seq<char>) -> Seq<char>
    decreases parts.len(),
{
    if parts.len() == 0 {
        Seq::empty()
    } else if parts.len() == 1 {
        parts[0]
    } else {
        join_with(parts.drop_last(), sep) + sep + parts.last()
    }
}

/// Joins the parts with `sep` between neighbours.
pub fn join_strings(parts: &Vec<String>, sep: &str) -> (r: String)
    ensures
        r@ == join_with(texts(parts@), sep@),
{
    let n: usize = parts.len();
    let mut r = String::new();
    if n == 0 {
        return r;
    }
    r.append(parts[0].as_str());
    let mut i: usize = 1;
    proof {
        assert(texts(parts@).subrange(0, 1)[0] == parts@[0]@);
    }
    while i < n
        invariant
            n == parts@.len(),
            1 <= i <= n,
            r@ == join_with(texts(parts@).subrange(0, i as int), sep@),
        decreases n - i,
    {
        r.append(sep);
        r.append(parts[i].as_str());
        proof {
            let next = texts(parts@).subrange(0, i + 1);
            assert(next.drop_last() =~= texts(parts@).subrange(0, i as int));
            assert(next.last() == parts@[i as int]@);
        }
        i = i + 1;
    }
    proof {
        assert(texts(parts@).subrange(0, n as int) =~= texts(parts@));
    }
    r
}

} // verus!
