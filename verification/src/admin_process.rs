//! Command lines for spawning processes as Administrator
//!
//! A process spawned as Administrator receives its arguments as a single command line of UTF-16 code units, which it
//! splits into arguments again. Each argument is therefore put in double quotes, with backslashes escaping the double
//! quotes inside it and the backslashes in front of those and of the closing quote.

use vstd::prelude::*;

verus! {

/// The code unit of a backslash
pub const BACKSLASH: u16 = 92;

/// The code unit of a double quote
pub const QUOTE: u16 = 34;

/// The code unit of a space
pub const SPACE: u16 = 32;

/// `n` backslashes
pub open spec fn backslashes(n: nat) -> Seq<u16> {
    Seq::new(n, |i: int| BACKSLASH)
}

/// The escaped form of the code units of `arg` from position `i` on, after `pending` backslashes
///
/// Backslashes are kept. A double quote gets a backslash, and so does each backslash right in front of it. The
/// backslashes at the end are doubled, since they come right in front of the closing quote.
pub open spec fn escape_from(arg: Seq<u16>, i: int, pending: nat) -> Seq<u16>
    decreases arg.len() - i,
{
    if i < 0 || i >= arg.len() {
        backslashes(pending)
    } else if arg[i] == BACKSLASH {
        seq![BACKSLASH] + escape_from(arg, i + 1, pending + 1)
    } else if arg[i] == QUOTE {
        backslashes(pending + 1) + seq![QUOTE] + escape_from(arg, i + 1, 0)
    } else {
        seq![arg[i]] + escape_from(arg, i + 1, 0)
    }
}

/// An argument in double quotes, escaped
pub open spec fn quoted(arg: Seq<u16>) -> Seq<u16> {
    seq![QUOTE] + escape_from(arg, 0, 0) + seq![QUOTE]
}

/// The quoted arguments separated by spaces
pub open spec fn joined(args: Seq<Vec<u16>>) -> Seq<u16>
    decreases args.len(),
{
    if args.len() == 0 {
        Seq::empty()
    } else if args.len() == 1 {
        quoted(args[0]@)
    } else {
        joined(args.drop_last()) + seq![SPACE] + quoted(args.last()@)
    }
}

/// Whether some argument contains a null code unit
pub open spec fn has_null(args: Seq<Vec<u16>>) -> bool {
    exists|k: int, j: int| 0 <= k < args.len() && 0 <= j < args[k]@.len() && #[trigger] args[k]@[j] == 0
}

/// Appends `n` backslashes
fn push_backslashes(out: &mut Vec<u16>, n: usize)
    ensures
        final(out)@ == old(out)@ + backslashes(n as nat),
{
    let mut i: usize = 0;
    while i < n
        invariant
            i <= n,
            out@ == old(out)@ + backslashes(i as nat),
        decreases n - i,
    {
        out.push(BACKSLASH);
        i += 1;
        assert(out@ =~= old(out)@ + backslashes(i as nat));
    }
}

/// Appends an argument in double quotes, escaped, or returns `false` if it contains a null code unit
fn push_quoted(out: &mut Vec<u16>, arg: &Vec<u16>) -> (ok: bool)
    ensures
        ok <==> !(exists|j: int| 0 <= j < arg@.len() && #[trigger] arg@[j] == 0),
        ok ==> final(out)@ == old(out)@ + quoted(arg@),
{
    out.push(QUOTE);
    let ghost start = out@;
    let mut pending: usize = 0;
    let mut j: usize = 0;
    while j < arg.len()
        invariant
            j <= arg@.len(),
            pending <= j,
            out@ + escape_from(arg@, j as int, pending as nat) == start + escape_from(arg@, 0, 0),
            forall|l: int| 0 <= l < j ==> arg@[l] != 0,
            start == old(out)@ + seq![QUOTE],
        decreases arg@.len() - j,
    {
        let x = arg[j];
        if x == 0 {
            assert(arg@[j as int] == 0);
            return false;
        }
        let ghost before = out@;
        if x == BACKSLASH {
            out.push(x);
            assert(out@ + escape_from(arg@, j + 1, (pending + 1) as nat) =~= before + escape_from(
                arg@,
                j as int,
                pending as nat,
            ));
            pending += 1;
        } else {
            if x == QUOTE {
                push_backslashes(out, pending + 1);
            }
            out.push(x);
            assert(out@ + escape_from(arg@, j + 1, 0) =~= before + escape_from(arg@, j as int, pending as nat));
            pending = 0;
        }
        j += 1;
    }
    assert(escape_from(arg@, j as int, pending as nat) == backslashes(pending as nat));
    push_backslashes(out, pending);
    out.push(QUOTE);
    assert(out@ =~= old(out)@ + quoted(arg@));
    true
}

/// Makes the command line passing the given arguments, or returns `None` if an argument contains a null code unit
///
/// The command line consists of the quoted arguments separated by spaces and ends with a null code unit.
pub fn make_params(args: &[Vec<u16>]) -> (r: Option<Vec<u16>>)
    ensures
        has_null(args@) ==> r is None,
        !has_null(args@) ==> (r matches Some(params) && params@ == joined(args@).push(0u16)),
{
    let mut params: Vec<u16> = Vec::new();
    let mut i: usize = 0;
    while i < args.len()
        invariant
            i <= args@.len(),
            params@ == joined(args@.take(i as int)),
            !has_null(args@.take(i as int)),
        decreases args@.len() - i,
    {
        if i > 0 {
            params.push(SPACE);
        }
        if !push_quoted(&mut params, &args[i]) {
            assert(has_null(args@)) by {
                let j = choose|j: int| 0 <= j < args@[i as int]@.len() && #[trigger] args@[i as int]@[j] == 0;
                assert(args@[i as int]@[j] == 0);
            }
            return None;
        }
        assert(args@.take(i + 1).drop_last() =~= args@.take(i as int));
        assert(args@.take(i + 1).last() == args@[i as int]);
        if i == 0 {
            assert(params@ =~= joined(args@.take(1)));
        } else {
            assert(params@ =~= joined(args@.take(i + 1)));
        }
        assert(!has_null(args@.take(i + 1))) by {
            if has_null(args@.take(i + 1)) {
                let (k, j) = choose|k: int, j: int|
                    0 <= k < args@.take(i + 1).len() && 0 <= j < args@.take(i + 1)[k]@.len()
                        && #[trigger] args@.take(i + 1)[k]@[j] == 0;
                if k < i {
                    assert(args@.take(i as int)[k]@[j] == 0);
                } else {
                    assert(args@[i as int]@[j] == 0);
                }
            }
        }
        i += 1;
    }
    assert(args@.take(args@.len() as int) =~= args@);
    params.push(0);
    Some(params)
}

/// Escaping code units without nulls gives code units without nulls
proof fn lemma_escape_has_no_null(arg: Seq<u16>, i: int, pending: nat)
    requires
        forall|j: int| 0 <= j < arg.len() ==> #[trigger] arg[j] != 0,
    ensures
        forall|k: int| 0 <= k < escape_from(arg, i, pending).len() ==> #[trigger] escape_from(arg, i, pending)[k] != 0,
    decreases arg.len() - i,
{
    if 0 <= i < arg.len() {
        if arg[i] == BACKSLASH {
            lemma_escape_has_no_null(arg, i + 1, pending + 1);
        } else {
            lemma_escape_has_no_null(arg, i + 1, 0);
        }
    }
    let e = escape_from(arg, i, pending);
    assert forall|k: int| 0 <= k < e.len() implies #[trigger] e[k] != 0 by {
        if 0 <= i < arg.len() {
            if arg[i] == BACKSLASH {
                let rest = escape_from(arg, i + 1, pending + 1);
                assert(e == seq![BACKSLASH] + rest);
                if k > 0 {
                    assert(e[k] == rest[k - 1]);
                }
            } else if arg[i] == QUOTE {
                let rest = escape_from(arg, i + 1, 0);
                assert(e == backslashes(pending + 1) + seq![QUOTE] + rest);
                if k > pending + 1 {
                    assert(e[k] == rest[k - pending - 2]);
                }
            } else {
                let rest = escape_from(arg, i + 1, 0);
                assert(e == seq![arg[i]] + rest);
                if k > 0 {
                    assert(e[k] == rest[k - 1]);
                }
            }
        }
    }
}

/// A command line made from arguments without nulls has no null but the terminating one
pub proof fn lemma_params_have_one_null(args: Seq<Vec<u16>>)
    requires
        !has_null(args),
    ensures
        forall|k: int| 0 <= k < joined(args).len() ==> #[trigger] joined(args)[k] != 0,
    decreases args.len(),
{
    if args.len() > 0 {
        let last = args.last()@;
        assert forall|j: int| 0 <= j < last.len() implies #[trigger] last[j] != 0 by {
            if last[j] == 0 {
                assert(args[args.len() - 1]@[j] == 0);
            }
        }
        lemma_escape_has_no_null(last, 0, 0);
        let q = quoted(last);
        let e = escape_from(last, 0, 0);
        assert forall|k: int| 0 <= k < q.len() implies #[trigger] q[k] != 0 by {
            if 0 < k < q.len() - 1 {
                assert(q[k] == e[k - 1]);
            }
        }
        if args.len() > 1 {
            let init = args.drop_last();
            assert(!has_null(init)) by {
                if has_null(init) {
                    let (a, b) = choose|a: int, b: int|
                        0 <= a < init.len() && 0 <= b < init[a]@.len() && #[trigger] init[a]@[b] == 0;
                    assert(args[a]@[b] == 0);
                }
            }
            lemma_params_have_one_null(init);
            let p = joined(init);
            assert forall|k: int| 0 <= k < joined(args).len() implies #[trigger] joined(args)[k] != 0 by {
                if k < p.len() {
                    assert(joined(args)[k] == p[k]);
                } else if k > p.len() {
                    assert(joined(args)[k] == q[k - p.len() - 1]);
                }
            }
        }
    }
}

} // verus!
