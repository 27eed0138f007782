//! Textual driver inputs: the acceptance-policy name, the scheduler
//! name, and `from:to` rule notation.  All parsing is over plain bytes;
//! names are matched ASCII case-insensitively.

use vstd::prelude::*;

verus! {

use crate::cells::{rule_bytes, RuleCell};
use crate::error::Error;

/// The lower-case image of one ASCII byte.
pub open spec fn lower_byte(b: u8) -> u8 {
    if 65 <= b && b <= 90 {
        (b + 32) as u8
    } else {
        b
    }
}

/// ASCII lower-casing of a byte sequence.
pub open spec fn lower_bytes(s: Seq<u8>) -> Seq<u8> {
    s.map_values(|b: u8| lower_byte(b))
}

/// The bytes of the policy name "const".
pub open spec fn const_name() -> Seq<u8> {
    seq![99u8, 111u8, 110u8, 115u8, 116u8]
}

/// The bytes of the policy name "modulo".
pub open spec fn modulo_name() -> Seq<u8> {
    seq![109u8, 111u8, 100u8, 117u8, 108u8, 111u8]
}

/// The bytes of the scheduler name "multithread".
pub open spec fn multithread_name() -> Seq<u8> {
    seq![109u8, 117u8, 108u8, 116u8, 105u8, 116u8, 104u8, 114u8, 101u8, 97u8, 100u8]
}

/// The bytes of the scheduler name "multi".
pub open spec fn multi_name() -> Seq<u8> {
    seq![109u8, 117u8, 108u8, 116u8, 105u8]
}

/// The bytes of the scheduler name "single".
pub open spec fn single_name() -> Seq<u8> {
    seq![115u8, 105u8, 110u8, 103u8, 108u8, 101u8]
}

/// The bytes of the scheduler name "async".
pub open spec fn async_name() -> Seq<u8> {
    seq![97u8, 115u8, 121u8, 110u8, 99u8]
}

/// Whether `s`, lower-cased, spells exactly the (already lower-case)
/// name `t`.
fn ascii_lower_eq(s: &[u8], t: &[u8]) -> (r: bool)
    ensures
        r == (lower_bytes(s@) == t@),
{
    if s.len() != t.len() {
        proof {
            assert(lower_bytes(s@).len() == s@.len());
        }
        return false;
    }
    let n = s.len();
    for i in 0..n
        invariant
            n == s@.len(),
            n == t@.len(),
            forall|j: int| 0 <= j < i ==> lower_byte(s@[j]) == t@[j],
    {
        let b = s[i];
        let lb: u8 = if 65 <= b && b <= 90 {
            b + 32
        } else {
            b
        };
        if lb != t[i] {
            proof {
                assert(lower_bytes(s@)[i as int] != t@[i as int]);
            }
            return false;
        }
    }
    proof {
        assert(lower_bytes(s@) =~= t@);
    }
    true
}

/// Which acceptance policy a driver selected.
#[derive(Debug, Clone, Copy, PartialEq)]
pub enum Pattern {
    Modulo,
    Const,
}

impl Pattern {
    /// Parse a policy name, ASCII case-insensitively: "const" selects the
    /// passthrough policy, "modulo" the stride-modulo policy; anything
    /// else is refused.
    pub fn from_ascii(s: &[u8]) -> (r: Result<Pattern, Error>)
        ensures
            (r == Ok::<Pattern, Error>(Pattern::Const)) == (lower_bytes(s@) == const_name()),
            (r == Ok::<Pattern, Error>(Pattern::Modulo)) == (lower_bytes(s@) == modulo_name()),
            (r matches Err(e) && e matches Error::BadInput(_)) == (lower_bytes(s@) != const_name()
                && lower_bytes(s@) != modulo_name()),
    {
        let mut name: Vec<u8> = Vec::new();
        name.push(99);
        name.push(111);
        name.push(110);
        name.push(115);
        name.push(116);
        proof {
            assert(name@ =~= const_name());
        }
        if ascii_lower_eq(s, name.as_slice()) {
            return Ok(Pattern::Const);
        }
        let mut name: Vec<u8> = Vec::new();
        name.push(109);
        name.push(111);
        name.push(100);
        name.push(117);
        name.push(108);
        name.push(111);
        proof {
            assert(name@ =~= modulo_name());
        }
        if ascii_lower_eq(s, name.as_slice()) {
            return Ok(Pattern::Modulo);
        }
        Err(Error::BadInput("expected a pattern name: const or modulo".to_string()))
    }
}

/// Which scheduler backend a driver selected.
#[derive(Debug, Clone, Copy, PartialEq)]
pub enum SchedulerInput {
    ThreadPool,
    AsyncRuntime,
    SingleThread,
}

impl SchedulerInput {
    /// Parse a scheduler name, ASCII case-insensitively: "multithread"
    /// or "multi" select the thread pool, "single" the serial backend,
    /// "async" the runtime-backed one; anything else is refused.
    pub fn from_ascii(s: &[u8]) -> (r: Result<SchedulerInput, Error>)
        ensures
            (r == Ok::<SchedulerInput, Error>(SchedulerInput::ThreadPool)) == (lower_bytes(s@)
                == multithread_name() || lower_bytes(s@) == multi_name()),
            (r == Ok::<SchedulerInput, Error>(SchedulerInput::SingleThread)) == (lower_bytes(s@)
                == single_name()),
            (r == Ok::<SchedulerInput, Error>(SchedulerInput::AsyncRuntime)) == (lower_bytes(s@)
                == async_name()),
            (r matches Err(e) && e matches Error::BadInput(_)) == (lower_bytes(s@)
                != multithread_name() && lower_bytes(s@) != multi_name() && lower_bytes(s@)
                != single_name() && lower_bytes(s@) != async_name()),
    {
        let mut name: Vec<u8> = Vec::new();
        name.push(109);
        name.push(117);
        name.push(108);
        name.push(116);
        name.push(105);
        proof {
            assert(name@ =~= multi_name());
        }
        if ascii_lower_eq(s, name.as_slice()) {
            return Ok(SchedulerInput::ThreadPool);
        }
        name.push(116);
        name.push(104);
        name.push(114);
        name.push(101);
        name.push(97);
        name.push(100);
        proof {
            assert(name@ =~= multithread_name());
        }
        if ascii_lower_eq(s, name.as_slice()) {
            return Ok(SchedulerInput::ThreadPool);
        }
        let mut name: Vec<u8> = Vec::new();
        name.push(115);
        name.push(105);
        name.push(110);
        name.push(103);
        name.push(108);
        name.push(101);
        proof {
            assert(name@ =~= single_name());
        }
        if ascii_lower_eq(s, name.as_slice()) {
            return Ok(SchedulerInput::SingleThread);
        }
        let mut name: Vec<u8> = Vec::new();
        name.push(97);
        name.push(115);
        name.push(121);
        name.push(110);
        name.push(99);
        proof {
            assert(name@ =~= async_name());
        }
        if ascii_lower_eq(s, name.as_slice()) {
            return Ok(SchedulerInput::AsyncRuntime);
        }
        Err(
            Error::BadInput(
                "expected a scheduler name: multithread, multi, single or async".to_string(),
            ),
        )
    }
}

/// The position of the first colon in `bytes` at or after `from`, or the
/// length when there is none.
pub open spec fn colon_after(bytes: Seq<u8>, from: int) -> int
    decreases bytes.len() - from,
{
    if from < 0 || from >= bytes.len() {
        bytes.len() as int
    } else if bytes[from] == 58 {
        from
    } else {
        colon_after(bytes, from + 1)
    }
}

/// Parse one rule in `from:to` notation: the byte before the first colon
/// triggers the rule, and the bytes between the first and the second
/// colon (or the end) are the replacement alternatives.  Refused when no
/// colon is present or nothing stands before it.
pub fn parse_rule(buf: &[u8]) -> (r: Result<(u8, RuleCell), Error>)
    ensures
        match r {
            Ok(p) => {
                &&& 1 <= colon_after(buf@, 0) < buf@.len()
                &&& p.0 == buf@[0]
                &&& rule_bytes(p.1) == buf@.subrange(
                    colon_after(buf@, 0) + 1,
                    colon_after(buf@, colon_after(buf@, 0) + 1),
                )
            },
            Err(e) => {
                &&& (colon_after(buf@, 0) == buf@.len() || colon_after(buf@, 0) == 0)
                &&& e matches Error::BadInput(_)
            },
        },
{
    let n = buf.len();
    let mut i: usize = 0;
    while i < n && buf[i] != 58
        invariant
            n == buf@.len(),
            0 <= i <= n,
            colon_after(buf@, 0) == colon_after(buf@, i as int),
        decreases n - i,
    {
        i = i + 1;
    }
    if i == n {
        return Err(Error::BadInput("a rule needs a colon between trigger and replacement".to_string()));
    }
    proof {
        assert(colon_after(buf@, i as int) == i);
    }
    if i == 0 {
        return Err(Error::BadInput("a rule needs a trigger byte before the colon".to_string()));
    }
    let root = buf[0];
    let start = i + 1;
    let mut j = start;
    while j < n && buf[j] != 58
        invariant
            n == buf@.len(),
            start <= j <= n,
            colon_after(buf@, start as int) == colon_after(buf@, j as int),
        decreases n - j,
    {
        j = j + 1;
    }
    proof {
        if j < n {
            assert(colon_after(buf@, j as int) == j);
        }
    }
    let mut cell = RuleCell::empty();
    proof {
        assert(rule_bytes(cell) =~= buf@.subrange(start as int, start as int));
    }
    let mut k = start;
    while k < j
        invariant
            n == buf@.len(),
            start <= k <= j <= n,
            rule_bytes(cell) == buf@.subrange(start as int, k as int),
        decreases j - k,
    {
        cell.append(buf[k]);
        proof {
            assert(buf@.subrange(start as int, k as int).push(buf@[k as int]) =~= buf@.subrange(
                start as int,
                k + 1,
            ));
        }
        k = k + 1;
    }
    Ok((root, cell))
}

} // verus!
