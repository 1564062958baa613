//! Verified helpers over identifier and template text, held as `Vec<char>`:
//! equality, copying, the reserved names of the annotation grammar, the
//! carrier-type naming convention, and synthesized positional field names.

use vstd::prelude::*;

verus! {

broadcast use vstd::std_specs::vec::group_vec_axioms;

/// The marker identifier that selects the transparent render policy.
pub open spec fn spec_transparent_name() -> Seq<char> {
    "transparent"@
}

/// The suffix stripped from a declaration name before naming its carrier.
pub open spec fn spec_error_suffix() -> Seq<char> {
    "Error"@
}

/// The suffix appended to a stripped declaration name to name its carrier.
pub open spec fn spec_ctx_suffix() -> Seq<char> {
    "Ctx"@
}

/// A declaration name with any trailing "Error" suffix stripped.
pub open spec fn spec_stripped_name(name: Seq<char>) -> Seq<char> {
    if name.len() >= 5 && name.subrange(name.len() - 5, name.len() as int)
        == spec_error_suffix() {
        name.subrange(0, name.len() - 5)
    } else {
        name
    }
}

/// The conventional carrier name: stripped base name plus "Ctx".
pub open spec fn spec_ctx_name(name: Seq<char>) -> Seq<char> {
    spec_stripped_name(name) + spec_ctx_suffix()
}

/// Whether two pieces of text are equal.
pub fn text_eq(a: &Vec<char>, b: &Vec<char>) -> (r: bool)
    ensures
        r == (a@ == b@),
{
    if a.len() != b.len() {
        return false;
    }
    let mut i: usize = 0;
    while i < a.len()
        invariant
            i <= a.len(),
            a.len() == b.len(),
            forall|j: int| 0 <= j < i ==> a@[j] == b@[j],
        decreases a.len() - i,
    {
        if a[i] != b[i] {
            return false;
        }
        i += 1;
    }
    proof {
        assert(a@ =~= b@);
    }
    true
}

/// A copy of the given text.
pub fn copy_text(v: &Vec<char>) -> (r: Vec<char>)
    ensures
        r@ == v@,
{
    let mut out: Vec<char> = Vec::new();
    let mut i: usize = 0;
    while i < v.len()
        invariant
            i <= v.len(),
            out@ == v@.subrange(0, i as int),
        decreases v.len() - i,
    {
        out.push(v[i]);
        i += 1;
        proof {
            assert(out@ =~= v@.subrange(0, i as int));
        }
    }
    proof {
        assert(out@ =~= v@);
    }
    out
}

/// A copy of optional text.
pub fn copy_opt_text(v: &Option<Vec<char>>) -> (r: Option<Vec<char>>)
    ensures
        crate::model::opt_text_view(r) == crate::model::opt_text_view(*v),
{
    match v {
        Option::Some(t) => Option::Some(copy_text(t)),
        Option::None => Option::None,
    }
}

/// The reserved cause-field name, as text.
pub fn cause_name_text() -> (r: Vec<char>)
    ensures
        r@ == crate::model::spec_cause_name(),
{
    let mut v: Vec<char> = Vec::new();
    v.push('s');
    v.push('o');
    v.push('u');
    v.push('r');
    v.push('c');
    v.push('e');
    proof {
        reveal_strlit("source");
        assert(v@ =~= "source"@);
    }
    v
}

/// The transparent marker identifier, as text.
pub fn transparent_name_text() -> (r: Vec<char>)
    ensures
        r@ == spec_transparent_name(),
{
    let mut v: Vec<char> = Vec::new();
    v.push('t');
    v.push('r');
    v.push('a');
    v.push('n');
    v.push('s');
    v.push('p');
    v.push('a');
    v.push('r');
    v.push('e');
    v.push('n');
    v.push('t');
    proof {
        reveal_strlit("transparent");
        assert(v@ =~= "transparent"@);
    }
    v
}

/// The stripped suffix, as text.
fn error_suffix_text() -> (r: Vec<char>)
    ensures
        r@ == spec_error_suffix(),
{
    let mut v: Vec<char> = Vec::new();
    v.push('E');
    v.push('r');
    v.push('r');
    v.push('o');
    v.push('r');
    proof {
        reveal_strlit("Error");
        assert(v@ =~= "Error"@);
    }
    v
}

/// A copy of the text between two positions.
pub fn copy_text_range(v: &Vec<char>, from: usize, to: usize) -> (r: Vec<char>)
    requires
        from <= to <= v@.len(),
    ensures
        r@ == v@.subrange(from as int, to as int),
{
    let mut out: Vec<char> = Vec::new();
    let mut i: usize = from;
    while i < to
        invariant
            from <= i <= to <= v@.len(),
            out@ == v@.subrange(from as int, i as int),
        decreases to - i,
    {
        out.push(v[i]);
        i += 1;
        proof {
            assert(out@ =~= v@.subrange(from as int, i as int));
        }
    }
    out
}

/// The carrier name derived from a declaration name: any trailing "Error"
/// is stripped, then "Ctx" is appended.
pub fn ctx_name_of(name: &Vec<char>) -> (r: Vec<char>)
    ensures
        r@ == spec_ctx_name(name@),
{
    let n = name.len();
    let has_suffix: bool = if n >= 5 {
        let tail = copy_text_range(name, n - 5, n);
        let suffix = error_suffix_text();
        text_eq(&tail, &suffix)
    } else {
        false
    };
    let stop: usize = if has_suffix {
        n - 5
    } else {
        n
    };
    let mut out = copy_text_range(name, 0, stop);
    out.push('C');
    out.push('t');
    out.push('x');
    proof {
        reveal_strlit("Ctx");
        if !has_suffix {
            assert(name@.subrange(0, n as int) =~= name@);
        }
        assert(out@ =~= spec_ctx_name(name@));
    }
    out
}

/// The decimal digit character for a value below ten.
pub open spec fn spec_digit(d: nat) -> char {
    if d == 0 {
        '0'
    } else if d == 1 {
        '1'
    } else if d == 2 {
        '2'
    } else if d == 3 {
        '3'
    } else if d == 4 {
        '4'
    } else if d == 5 {
        '5'
    } else if d == 6 {
        '6'
    } else if d == 7 {
        '7'
    } else if d == 8 {
        '8'
    } else {
        '9'
    }
}

/// The decimal rendering of a number.
pub open spec fn spec_decimal(n: nat) -> Seq<char>
    decreases n,
{
    if n < 10 {
        seq![spec_digit(n)]
    } else {
        spec_decimal(n / 10).push(spec_digit(n % 10))
    }
}

/// The synthesized name of the positional field at a given position.
pub open spec fn spec_positional_name(i: nat) -> Seq<char> {
    seq!['f'] + spec_decimal(i)
}

fn digit_char(d: usize) -> (c: char)
    requires
        d < 10,
    ensures
        c == spec_digit(d as nat),
{
    if d == 0 {
        '0'
    } else if d == 1 {
        '1'
    } else if d == 2 {
        '2'
    } else if d == 3 {
        '3'
    } else if d == 4 {
        '4'
    } else if d == 5 {
        '5'
    } else if d == 6 {
        '6'
    } else if d == 7 {
        '7'
    } else if d == 8 {
        '8'
    } else {
        '9'
    }
}

fn push_decimal(out: &mut Vec<char>, n: usize)
    ensures
        final(out)@ == old(out)@ + spec_decimal(n as nat),
    decreases n,
{
    if n < 10 {
        out.push(digit_char(n));
        proof {
            assert(out@ =~= old(out)@ + spec_decimal(n as nat));
        }
    } else {
        push_decimal(out, n / 10);
        out.push(digit_char(n % 10));
        proof {
            assert(out@ =~= old(out)@ + spec_decimal(n as nat));
        }
    }
}

/// The synthesized positional field name, as text.
pub fn positional_name(i: usize) -> (r: Vec<char>)
    ensures
        r@ == spec_positional_name(i as nat),
{
    let mut v: Vec<char> = Vec::new();
    v.push('f');
    push_decimal(&mut v, i);
    proof {
        assert(v@ =~= spec_positional_name(i as nat));
    }
    v
}

} // verus!
