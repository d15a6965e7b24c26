//! Properties of the wrapped body that hold for every function and every pair
//! of fragments.
use crate::params::{classify_spec, ClassifiedParameter, Param, PassMode, Pattern, TypeKind, TypeShape};
use crate::tokens::{ident_text, toks, Tok};
use crate::wrapped::{capture_stmt, closure_stmt, WrappedFn};
use vstd::prelude::*;

verus! {

/// With only code to run before the body, the original block follows that code
/// unchanged, as a statement of the function's own body: no closure stands
/// between an early `return` in it and the function.
pub proof fn lemma_pre_only_inlines_body(w: WrappedFn)
    requires
        w.pre_code is Some,
        w.post_code is None,
    ensures
        w.new_body() == toks(w.pre_code->0) + w.original_block(),
{
}

/// With code to run after the body, the original block only stands inside the
/// closure; the closure is called once, its value captured, and then the post
/// code follows at the top level of the body, once, before the captured value
/// is the final expression.
pub proof fn lemma_post_runs_after_closure(w: WrappedFn)
    requires
        w.post_code is Some,
    ensures
        ({
            let pre = match w.pre_code {
                Some(p) => toks(p),
                None => Seq::<Tok>::empty(),
            };
            let post = toks(w.post_code->0);
            let wi = ident_text(w.wrapper_ident);
            let ri = ident_text(w.result_ident);
            w.new_body() == pre + closure_stmt(wi, w.original_block()) + capture_stmt(wi, ri)
                + post + seq![Tok::Word(ri)]
        }),
{
}

/// The identifier that captures the closure's value and the final expression
/// are both the configured result identifier; renaming it changes exactly these
/// two tokens of the body.
pub proof fn lemma_result_ident_consistent(a: WrappedFn, b: WrappedFn)
    requires
        a.post_code is Some,
        a.function == b.function,
        a.pre_code == b.pre_code,
        a.post_code == b.post_code,
        ident_text(a.wrapper_ident) == ident_text(b.wrapper_ident),
    ensures
        ({
            let n = a.new_body().len();
            let k = n - 1 - toks(a.post_code->0).len() - 5;
            &&& b.new_body().len() == n
            &&& a.new_body()[k] == Tok::Word(ident_text(a.result_ident))
            &&& a.new_body()[n - 1] == Tok::Word(ident_text(a.result_ident))
            &&& forall|i: int|
                0 <= i < n && i != k && i != n - 1 ==> a.new_body()[i] == b.new_body()[i]
        }),
{
    let pre = match a.pre_code {
        Some(p) => toks(p),
        None => Seq::<Tok>::empty(),
    };
    let post = toks(a.post_code->0);
    let wi = ident_text(a.wrapper_ident);
    let head = pre + closure_stmt(wi, a.original_block());
    lemma_post_runs_after_closure(a);
    lemma_post_runs_after_closure(b);
    let n = a.new_body().len();
    let k = n - 1 - post.len() - 5;
    assert(k == head.len() + 1);
    assert forall|i: int| 0 <= i < n && i != k && i != n - 1 implies a.new_body()[i]
        == b.new_body()[i] by {
        if i < head.len() {
        } else if i < head.len() + 6 {
        } else {
        }
    }
}

/// Fragments are spliced verbatim: the pre code is the start of the body and the
/// post code stands whole just before the final expression.
pub proof fn lemma_fragments_verbatim(w: WrappedFn)
    requires
        w.pre_code is Some || w.post_code is Some,
    ensures
        w.pre_code is Some ==> w.new_body().subrange(0, toks(w.pre_code->0).len() as int) == toks(
            w.pre_code->0,
        ),
        w.post_code is Some ==> ({
            let n = w.new_body().len();
            let q = toks(w.post_code->0);
            w.new_body().subrange(n - 1 - q.len(), n - 1) == q
        }),
{
    if w.pre_code is Some {
        let p = toks(w.pre_code->0);
        assert(w.new_body().subrange(0, p.len() as int) =~= p);
    }
    if w.post_code is Some {
        lemma_post_runs_after_closure(w);
        let n = w.new_body().len();
        let q = toks(w.post_code->0);
        assert(w.new_body().subrange(n - 1 - q.len(), n - 1) =~= q);
    }
}

/// A parameter bound by a plain identifier is classified by its declared type
/// alone: by mutable reference for `&mut T`, by reference for `&T`, by value
/// for any other type.
pub proof fn lemma_reference_upgrade(name: String, ty: TypeShape)
    ensures
        ({
            let p = Param {
                pat: Pattern::Binding { name, by_ref: false, mutable: false, sub: None },
                ty: Some(ty),
            };
            let mode = match ty.kind {
                TypeKind::Reference { mutable: true, .. } => PassMode::ByMutRef,
                TypeKind::Reference { mutable: false, .. } => PassMode::ByRef,
                _ => PassMode::ByValue,
            };
            classify_spec(seq![p]) == seq![
                ClassifiedParameter { name: Some(name), ty: Some(ty.text), mode },
            ]
        }),
{
    let p = Param {
        pat: Pattern::Binding { name, by_ref: false, mutable: false, sub: None },
        ty: Some(ty),
    };
    let s = seq![p];
    assert(crate::params::classify_list(s, 0) == Seq::<ClassifiedParameter>::empty());
    assert(classify_spec(s) =~= crate::params::classify_pat(p.pat, p.ty, PassMode::ByValue));
}

} // verus!
