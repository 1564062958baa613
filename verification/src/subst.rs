//! Template substitution: the semantics of a literal rendering branch.
//! A template references bound fields as `{name}`; rendering replaces each
//! such reference with the bound value. A reference to a name that is not
//! bound, or an unclosed brace, stays as literal text: validating that
//! templates reference only existing fields is delegated, not done here.

use vstd::prelude::*;
use crate::text::copy_text_range;

verus! {

broadcast use vstd::std_specs::vec::group_vec_axioms;

/// One bound name and the text it renders to.
#[derive(Debug, PartialEq, Eq)]
pub struct Binding {
    pub name: Vec<char>,
    pub value: Vec<char>,
}

/// Spec mirror of `Binding`.
#[verifier::ext_equal]
pub struct SpecBinding {
    pub name: Seq<char>,
    pub value: Seq<char>,
}

impl DeepView for Binding {
    type V = SpecBinding;

    open spec fn deep_view(&self) -> SpecBinding {
        SpecBinding { name: self.name@, value: self.value@ }
    }
}

/// The value of the first binding with the given name at or after `i`.
pub open spec fn spec_lookup(binds: Seq<SpecBinding>, name: Seq<char>, i: int) -> Option<
    Seq<char>,
>
    decreases binds.len() - i,
{
    if i < 0 || i >= binds.len() {
        Option::None
    } else if binds[i].name == name {
        Option::Some(binds[i].value)
    } else {
        spec_lookup(binds, name, i + 1)
    }
}

/// The value bound to a name, if any.
pub open spec fn spec_binding_value(binds: Seq<SpecBinding>, name: Seq<char>) -> Option<
    Seq<char>,
> {
    spec_lookup(binds, name, 0)
}

/// The position of the first closing brace at or after `i`; the
/// template's length when there is none.
pub open spec fn spec_close_idx(template: Seq<char>, i: int) -> int
    decreases template.len() - i,
{
    if i < 0 || i >= template.len() {
        template.len() as int
    } else if template[i] == '}' {
        i
    } else {
        spec_close_idx(template, i + 1)
    }
}

/// Where the first closing brace lies: at or after the start, at a
/// closing brace or the end, with none before it.
pub proof fn lemma_close_idx_bounds(template: Seq<char>, i: int)
    requires
        0 <= i <= template.len(),
    ensures
        i <= spec_close_idx(template, i) <= template.len(),
        spec_close_idx(template, i) < template.len() ==> template[spec_close_idx(template, i)]
            == '}',
    decreases template.len() - i,
{
    if i < template.len() && template[i] != '}' {
        lemma_close_idx_bounds(template, i + 1);
    }
}

/// The rendered text of the template from position `i` on: each closed
/// `{name}` whose name is bound becomes its value; everything else stays.
pub open spec fn spec_subst_from(template: Seq<char>, binds: Seq<SpecBinding>, i: int) -> Seq<
    char,
>
    decreases template.len() - i,
    via spec_subst_from_decreases
{
    if i < 0 || i >= template.len() {
        Seq::empty()
    } else if template[i] == '{' {
        let j = spec_close_idx(template, i + 1);
        if j >= template.len() {
            template.subrange(i, template.len() as int)
        } else {
            let name = template.subrange(i + 1, j);
            match spec_binding_value(binds, name) {
                Option::Some(v) => v + spec_subst_from(template, binds, j + 1),
                Option::None => template.subrange(i, j + 1) + spec_subst_from(
                    template,
                    binds,
                    j + 1,
                ),
            }
        }
    } else {
        seq![template[i]] + spec_subst_from(template, binds, i + 1)
    }
}

#[via_fn]
proof fn spec_subst_from_decreases(template: Seq<char>, binds: Seq<SpecBinding>, i: int) {
    if 0 <= i < template.len() && template[i] == '{' {
        lemma_close_idx_bounds(template, i + 1);
    }
}

/// The rendered text of a whole template under the given bindings.
pub open spec fn spec_subst(template: Seq<char>, binds: Seq<SpecBinding>) -> Seq<char> {
    spec_subst_from(template, binds, 0)
}

/// The value bound to a name, if any.
#[verifier::loop_isolation(false)]
pub fn binding_value(binds: &Vec<Binding>, name: &Vec<char>) -> (r: Option<Vec<char>>)
    ensures
        crate::model::opt_text_view(r) == spec_binding_value(binds.deep_view(), name@),
{
    let ghost bv = binds.deep_view();
    let mut i: usize = 0;
    while i < binds.len()
        invariant
            0 <= i <= binds.len(),
            spec_binding_value(bv, name@) == spec_lookup(bv, name@, i as int),
        decreases binds.len() - i,
    {
        if crate::text::text_eq(&binds[i].name, name) {
            return Option::Some(crate::text::copy_text(&binds[i].value));
        }
        i += 1;
    }
    Option::None
}

/// The position of the first closing brace at or after `i`.
#[verifier::loop_isolation(false)]
fn close_idx(template: &Vec<char>, i: usize) -> (r: usize)
    requires
        i <= template@.len(),
    ensures
        r == spec_close_idx(template@, i as int),
        i <= r <= template@.len(),
{
    let mut j: usize = i;
    while j < template.len()
        invariant
            i <= j <= template@.len(),
            spec_close_idx(template@, i as int) == spec_close_idx(template@, j as int),
        decreases template@.len() - j,
    {
        if template[j] == '}' {
            return j;
        }
        j += 1;
    }
    template.len()
}

/// Appends a range of the template as literal text.
#[verifier::loop_isolation(false)]
fn push_range(out: &mut Vec<char>, v: &Vec<char>, from: usize, to: usize)
    requires
        from <= to <= v@.len(),
    ensures
        final(out)@ == old(out)@ + v@.subrange(from as int, to as int),
{
    let mut i: usize = from;
    while i < to
        invariant
            from <= i <= to <= v@.len(),
            out@ == old(out)@ + v@.subrange(from as int, i as int),
        decreases to - i,
    {
        out.push(v[i]);
        i += 1;
        proof {
            assert(out@ =~= old(out)@ + v@.subrange(from as int, i as int));
        }
    }
    proof {
        assert(out@ =~= old(out)@ + v@.subrange(from as int, to as int));
    }
}

/// Appends the rendered text of the template from position `i` on.
fn subst_from(template: &Vec<char>, binds: &Vec<Binding>, i: usize, out: &mut Vec<char>)
    requires
        i <= template@.len(),
    ensures
        final(out)@ == old(out)@ + spec_subst_from(template@, binds.deep_view(), i as int),
    decreases template@.len() - i,
{
    let ghost bv = binds.deep_view();
    if i >= template.len() {
        proof {
            assert(out@ =~= old(out)@ + spec_subst_from(template@, bv, i as int));
        }
        return ;
    }
    if template[i] == '{' {
        let j = close_idx(template, i + 1);
        if j >= template.len() {
            push_range(out, template, i, template.len());
            proof {
                assert(out@ =~= old(out)@ + spec_subst_from(template@, bv, i as int));
            }
        } else {
            proof {
                lemma_close_idx_bounds(template@, i as int + 1);
            }
            let name = copy_text_range(template, i + 1, j);
            match binding_value(binds, &name) {
                Option::Some(v) => {
                    push_range(out, &v, 0, v.len());
                    subst_from(template, binds, j + 1, out);
                    proof {
                        assert(v@.subrange(0, v@.len() as int) =~= v@);
                        assert(out@ =~= old(out)@ + spec_subst_from(template@, bv, i as int));
                    }
                },
                Option::None => {
                    push_range(out, template, i, j + 1);
                    subst_from(template, binds, j + 1, out);
                    proof {
                        assert(out@ =~= old(out)@ + spec_subst_from(template@, bv, i as int));
                    }
                },
            }
        }
    } else {
        out.push(template[i]);
        subst_from(template, binds, i + 1, out);
        proof {
            assert(out@ =~= old(out)@ + spec_subst_from(template@, bv, i as int));
        }
    }
}

/// Renders a literal template under the given bindings: each closed
/// `{name}` reference whose name is bound becomes the bound value, and
/// everything else stays literal text.
pub fn apply_template(template: &Vec<char>, bindings: &Vec<Binding>) -> (r: Vec<char>)
    ensures
        r@ == spec_subst(template@, bindings.deep_view()),
{
    let mut out: Vec<char> = Vec::new();
    subst_from(template, bindings, 0, &mut out);
    proof {
        assert(out@ =~= spec_subst(template@, bindings.deep_view()));
    }
    out
}

} // verus!
