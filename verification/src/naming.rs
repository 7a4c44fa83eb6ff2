//! Sequential worker-thread names.
//!
//! Every runtime this crate builds names its worker threads with a fixed
//! prefix followed by a decimal counter value, so that the threads of one
//! runtime are told apart by the order in which they were created.
//!
//! One counter would ideally serve the whole process — initialized once,
//! never reset — so that a second runtime's numbering continues where the
//! first left off instead of restarting at zero. This crate's verified
//! source admits no process-lifetime state, so each construction creates
//! its own counter instead: names are unique and ordered within one
//! runtime's threads, and repeat from `tokio-rt-0` for the next runtime
//! built in the same process.

use std::sync::atomic::AtomicU64;
use std::sync::atomic::Ordering;
use vstd::prelude::*;
use vstd::string::StringExecFns;

verus! {

/// The decimal digit character for a value below ten.
pub open spec fn spec_digit(d: nat) -> char {
    if d == 0 {
        '0'
    } else if d == 1 {
        '1'
    } else if d == 2 {
        '2'
    } else if d == 3 {
        '3'
    } else if d == 4 {
        '4'
    } else if d == 5 {
        '5'
    } else if d == 6 {
        '6'
    } else if d == 7 {
        '7'
    } else if d == 8 {
        '8'
    } else {
        '9'
    }
}

/// The decimal representation of `n`, most significant digit first and
/// without leading zeros (`0` itself is written as one digit).
pub open spec fn spec_decimal(n: nat) -> Seq<char>
    decreases n,
{
    if n < 10 {
        seq![spec_digit(n)]
    } else {
        spec_decimal(n / 10).push(spec_digit(n % 10))
    }
}

/// The name assigned to the worker thread that drew `n` from the counter.
pub open spec fn spec_worker_name(n: nat) -> Seq<char> {
    "tokio-rt-"@ + spec_decimal(n)
}

/// Whether `s` is a name the thread-naming scheme can produce.
pub open spec fn is_worker_name(s: Seq<char>) -> bool {
    exists|n: nat| s == spec_worker_name(n)
}

fn digit_str(d: u64) -> (s: &'static str)
    requires
        d < 10,
    ensures
        s@ == seq![spec_digit(d as nat)],
{
    if d == 0 {
        proof {
            reveal_strlit("0");
            assert("0"@ =~= seq![spec_digit(0)]);
        }
        "0"
    } else if d == 1 {
        proof {
            reveal_strlit("1");
            assert("1"@ =~= seq![spec_digit(1)]);
        }
        "1"
    } else if d == 2 {
        proof {
            reveal_strlit("2");
            assert("2"@ =~= seq![spec_digit(2)]);
        }
        "2"
    } else if d == 3 {
        proof {
            reveal_strlit("3");
            assert("3"@ =~= seq![spec_digit(3)]);
        }
        "3"
    } else if d == 4 {
        proof {
            reveal_strlit("4");
            assert("4"@ =~= seq![spec_digit(4)]);
        }
        "4"
    } else if d == 5 {
        proof {
            reveal_strlit("5");
            assert("5"@ =~= seq![spec_digit(5)]);
        }
        "5"
    } else if d == 6 {
        proof {
            reveal_strlit("6");
            assert("6"@ =~= seq![spec_digit(6)]);
        }
        "6"
    } else if d == 7 {
        proof {
            reveal_strlit("7");
            assert("7"@ =~= seq![spec_digit(7)]);
        }
        "7"
    } else if d == 8 {
        proof {
            reveal_strlit("8");
            assert("8"@ =~= seq![spec_digit(8)]);
        }
        "8"
    } else {
        proof {
            reveal_strlit("9");
            assert("9"@ =~= seq![spec_digit(d as nat)]);
        }
        "9"
    }
}

fn push_decimal(s: &mut String, n: u64)
    ensures
        final(s)@ == old(s)@ + spec_decimal(n as nat),
    decreases n,
{
    if n >= 10 {
        proof {
            assert(n as nat / 10 < n as nat) by (nonlinear_arith)
                requires
                    n >= 10,
            ;
        }
        push_decimal(s, n / 10);
    }
    let d: u64 = n % 10;
    let ds: &str = digit_str(d);
    s.append(ds);
    proof {
        if n >= 10 {
            assert(spec_decimal(n as nat) =~= spec_decimal(n as nat / 10) + seq![
                spec_digit(n as nat % 10),
            ]);
            assert(old(s)@ + spec_decimal(n as nat / 10) + seq![spec_digit(n as nat % 10)] =~= old(
                s,
            )@ + spec_decimal(n as nat));
        } else {
            assert(old(s)@ + seq![spec_digit(n as nat)] =~= old(s)@ + spec_decimal(n as nat));
        }
    }
}

/// Formats the worker-thread name for counter value `n`: the fixed prefix
/// followed by `n` in decimal.
pub fn worker_name(n: u64) -> (s: String)
    ensures
        s@ == spec_worker_name(n as nat),
{
    let mut s: String = "tokio-rt-".to_owned();
    push_decimal(&mut s, n);
    s
}

/// Draws the next value from `counter` and formats the worker-thread name
/// for it. The fetch-and-increment is atomic, so concurrent callers sharing
/// one counter never draw the same value.
pub fn fresh_worker_name(counter: &AtomicU64) -> (s: String)
    ensures
        is_worker_name(s@),
{
    let n: u64 = counter.fetch_add(1, Ordering::SeqCst);
    let s: String = worker_name(n);
    proof {
        assert(s@ == spec_worker_name(n as nat));
    }
    s
}

proof fn lemma_decimal_nonempty(n: nat)
    ensures
        spec_decimal(n).len() >= 1,
    decreases n,
{
    if n >= 10 {
        lemma_decimal_nonempty(n / 10);
    }
}

proof fn lemma_decimal_injective(a: nat, b: nat)
    ensures
        spec_decimal(a) == spec_decimal(b) ==> a == b,
    decreases a,
{
    if spec_decimal(a) == spec_decimal(b) {
        if a < 10 && b < 10 {
            assert(spec_decimal(a)[0] == spec_decimal(b)[0]);
            assert(spec_digit(a) == spec_digit(b));
            assert(a == b);
        } else if a < 10 && b >= 10 {
            lemma_decimal_nonempty(b / 10);
            assert(spec_decimal(a).len() == 1);
            assert(spec_decimal(b).len() >= 2);
        } else if a >= 10 && b < 10 {
            lemma_decimal_nonempty(a / 10);
            assert(spec_decimal(a).len() >= 2);
            assert(spec_decimal(b).len() == 1);
        } else {
            let x = spec_decimal(a / 10);
            let y = spec_decimal(b / 10);
            assert(x.push(spec_digit(a % 10)) == y.push(spec_digit(b % 10)));
            assert(x.len() == y.len());
            assert(x.push(spec_digit(a % 10)).last() == spec_digit(a % 10));
            assert(y.push(spec_digit(b % 10)).last() == spec_digit(b % 10));
            assert(spec_digit(a % 10) == spec_digit(b % 10));
            assert(a % 10 == b % 10);
            assert(x =~= y) by {
                assert(forall|i: int|
                    0 <= i < x.len() ==> x[i] == x.push(spec_digit(a % 10))[i] && y[i] == y.push(
                        spec_digit(b % 10),
                    )[i]);
            }
            assert(a / 10 < a) by (nonlinear_arith)
                requires
                    a >= 10,
            ;
            lemma_decimal_injective(a / 10, b / 10);
            assert(a == a / 10 * 10 + a % 10) by (nonlinear_arith);
            assert(b == b / 10 * 10 + b % 10) by (nonlinear_arith);
        }
    }
}

/// Distinct counter values give distinct worker-thread names: the naming
/// scheme never assigns one name to two threads, however the threads'
/// creation is interleaved, as long as each draw comes from the shared
/// counter exactly once.
pub proof fn lemma_worker_names_distinct(a: nat, b: nat)
    ensures
        a != b ==> spec_worker_name(a) != spec_worker_name(b),
{
    if spec_worker_name(a) == spec_worker_name(b) {
        let p = "tokio-rt-"@;
        assert(spec_decimal(a) =~= (p + spec_decimal(a)).skip(p.len() as int));
        assert(spec_decimal(b) =~= (p + spec_decimal(b)).skip(p.len() as int));
        assert(spec_decimal(a) == spec_decimal(b));
        lemma_decimal_injective(a, b);
    }
}

} // verus!
