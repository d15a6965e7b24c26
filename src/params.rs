//! Classification of a function's parameters: every binding they introduce,
//! with its declared type and whether it is held by value or by reference.
use vstd::prelude::*;

verus! {

broadcast use vstd::std_specs::vec::axiom_vec_index_decreases;

/// How a binding holds its value.
#[derive(PartialEq, Eq, Structural, Clone, Copy, Debug)]
pub enum PassMode {
    ByValue,
    ByRef,
    ByMutRef,
}

/// A declared type: its source text, and as much of its shape as the
/// classification reads.
#[derive(Debug, PartialEq, Eq)]
pub struct TypeShape {
    pub text: String,
    pub kind: TypeKind,
}

/// The shape of a declared type.
#[derive(Debug, PartialEq, Eq)]
pub enum TypeKind {
    /// `&T` or `&mut T`.
    Reference { mutable: bool, elem: Box<TypeShape> },
    /// `(A, B, ...)`.
    Tuple(Vec<TypeShape>),
    /// `[T]` or `[T; N]`.
    Array(Box<TypeShape>),
    /// Any other type.
    Other,
}

/// A parameter pattern.
#[derive(Debug, PartialEq, Eq)]
pub enum Pattern {
    /// `name`, `mut name`, `ref name`, `ref mut name`, optionally `name @ sub`.
    Binding { name: String, by_ref: bool, mutable: bool, sub: Option<Box<Pattern>> },
    /// `_`.
    Wild,
    /// `&pat` or `&mut pat`.
    Reference { mutable: bool, pat: Box<Pattern> },
    /// `(a, b, ...)`.
    Tuple(Vec<Pattern>),
    /// `Path(a, b, ...)`.
    TupleStruct(Vec<Pattern>),
    /// `Path { x: a, y: b, ... }`, by the fields' patterns in order.
    Struct(Vec<Pattern>),
    /// `[a, b, ...]`.
    Slice(Vec<Pattern>),
    /// A pattern that binds nothing: a literal, a range, a path, `..`.
    Other,
}

/// One parameter of a function: its pattern and, where there is one, its type.
#[derive(Debug, PartialEq, Eq)]
pub struct Param {
    pub pat: Pattern,
    pub ty: Option<TypeShape>,
}

/// One binding that a parameter introduces.
#[derive(Debug, PartialEq, Eq)]
pub struct ClassifiedParameter {
    /// The bound name; none for `_`.
    pub name: Option<String>,
    /// The text of the binding's declared type, where the pattern lets it be known.
    pub ty: Option<String>,
    pub mode: PassMode,
}

pub open spec fn rank(m: PassMode) -> nat {
    match m {
        PassMode::ByValue => 0,
        PassMode::ByRef => 1,
        PassMode::ByMutRef => 2,
    }
}

/// The stronger of two modes: a mode is only ever upgraded.
pub open spec fn upgrade(a: PassMode, b: PassMode) -> PassMode {
    if rank(a) >= rank(b) {
        a
    } else {
        b
    }
}

/// The mode that a reference type gives, by its mutability.
pub open spec fn ref_mode(mutable: bool) -> PassMode {
    if mutable {
        PassMode::ByMutRef
    } else {
        PassMode::ByRef
    }
}

/// The mode a declared type gives its binding: by reference where it is a reference.
pub open spec fn type_mode(t: Option<TypeShape>) -> PassMode {
    match t {
        Some(ts) => match ts.kind {
            TypeKind::Reference { mutable, .. } => ref_mode(mutable),
            _ => PassMode::ByValue,
        },
        None => PassMode::ByValue,
    }
}

/// The mode a binding's own markers give it: `mut` asks for a mutable
/// reference, `ref` for a reference.
pub open spec fn binding_mode(by_ref: bool, mutable: bool) -> PassMode {
    if mutable {
        PassMode::ByMutRef
    } else if by_ref {
        PassMode::ByRef
    } else {
        PassMode::ByValue
    }
}

pub open spec fn text_of(t: Option<TypeShape>) -> Option<String> {
    match t {
        Some(ts) => Some(ts.text),
        None => None,
    }
}

/// A type with all enclosing references taken off.
pub open spec fn strip_shape(ts: TypeShape) -> TypeShape
    decreases ts,
{
    match ts.kind {
        TypeKind::Reference { elem, .. } => strip_shape(*elem),
        _ => ts,
    }
}

/// The mode `m`, upgraded by every reference that encloses a type.
pub open spec fn strip_shape_mode(ts: TypeShape, m: PassMode) -> PassMode
    decreases ts,
{
    match ts.kind {
        TypeKind::Reference { mutable, elem } => strip_shape_mode(*elem, upgrade(m, ref_mode(mutable))),
        _ => m,
    }
}

/// A declared type with all enclosing references taken off.
pub open spec fn strip(t: Option<TypeShape>) -> Option<TypeShape> {
    match t {
        Some(ts) => Some(strip_shape(ts)),
        None => None,
    }
}

/// The mode `m`, upgraded by every reference that encloses a declared type.
pub open spec fn strip_mode(t: Option<TypeShape>, m: PassMode) -> PassMode {
    match t {
        Some(ts) => strip_shape_mode(ts, m),
        None => m,
    }
}

/// The type of element `i` of `n`, where the (stripped) declared type is `t`:
/// a tuple type of as many elements gives each of a tuple pattern's its own,
/// an array type gives each of a slice pattern's its element type.
pub open spec fn element_type(t: Option<TypeShape>, n: int, i: int, tuple: bool) -> Option<TypeShape> {
    match t {
        Some(ts) => match ts.kind {
            TypeKind::Tuple(v) => if tuple && v.len() == n {
                Some(v[i])
            } else {
                None
            },
            TypeKind::Array(e) => if !tuple {
                Some(*e)
            } else {
                None
            },
            _ => None,
        },
        None => None,
    }
}

/// The bindings of a pattern, left to right, where `t` is its declared type and
/// `m` the mode that enclosing references gave it.
pub open spec fn classify_pat(p: Pattern, t: Option<TypeShape>, m: PassMode) -> Seq<ClassifiedParameter>
    decreases p, 0int,
{
    match p {
        Pattern::Binding { name, by_ref, mutable, sub } => {
            let me = ClassifiedParameter {
                name: Some(name),
                ty: text_of(t),
                mode: upgrade(upgrade(m, type_mode(t)), binding_mode(by_ref, mutable)),
            };
            match sub {
                Some(s) => seq![me] + classify_pat(*s, t, m),
                None => seq![me],
            }
        },
        Pattern::Wild => seq![
            ClassifiedParameter { name: None, ty: text_of(t), mode: upgrade(m, type_mode(t)) },
        ],
        Pattern::Reference { pat, .. } => match t {
            Some(ts) => match ts.kind {
                TypeKind::Reference { mutable, elem } => classify_pat(
                    *pat,
                    Some(*elem),
                    upgrade(m, ref_mode(mutable)),
                ),
                _ => classify_pat(*pat, None, m),
            },
            None => classify_pat(*pat, None, m),
        },
        Pattern::Tuple(ps) => classify_prefix(ps@, ps@.len() as int, strip(t), strip_mode(t, m), true),
        Pattern::Slice(ps) => classify_prefix(ps@, ps@.len() as int, strip(t), strip_mode(t, m), false),
        Pattern::TupleStruct(ps) => classify_prefix(ps@, ps@.len() as int, None, strip_mode(t, m), true),
        Pattern::Struct(ps) => classify_prefix(ps@, ps@.len() as int, None, strip_mode(t, m), true),
        Pattern::Other => Seq::empty(),
    }
}

/// The bindings of the first `n` of a compound pattern's elements `ps`, where
/// `t` is the compound's declared type with its references taken off.
pub open spec fn classify_prefix(
    ps: Seq<Pattern>,
    n: int,
    t: Option<TypeShape>,
    m: PassMode,
    tuple: bool,
) -> Seq<ClassifiedParameter>
    decreases ps, n,
{
    if n <= 0 || n > ps.len() {
        Seq::empty()
    } else {
        classify_prefix(ps, n - 1, t, m, tuple) + classify_pat(
            ps[n - 1],
            element_type(t, ps.len() as int, n - 1, tuple),
            m,
        )
    }
}

/// The bindings of the first `n` parameters, each classified from its own type
/// with no enclosing reference.
pub open spec fn classify_list(ps: Seq<Param>, n: int) -> Seq<ClassifiedParameter>
    decreases n,
{
    if n <= 0 || n > ps.len() {
        Seq::empty()
    } else {
        classify_list(ps, n - 1) + classify_pat(ps[n - 1].pat, ps[n - 1].ty, PassMode::ByValue)
    }
}

/// The bindings of a parameter list, in declaration order.
pub open spec fn classify_spec(ps: Seq<Param>) -> Seq<ClassifiedParameter> {
    classify_list(ps, ps.len() as int)
}

pub open spec fn deref_type(t: Option<&TypeShape>) -> Option<TypeShape> {
    match t {
        Some(x) => Some(*x),
        None => None,
    }
}

fn upgrade_mode(a: PassMode, b: PassMode) -> (r: PassMode)
    ensures
        r == upgrade(a, b),
{
    let ra: u8 = match a {
        PassMode::ByValue => 0,
        PassMode::ByRef => 1,
        PassMode::ByMutRef => 2,
    };
    let rb: u8 = match b {
        PassMode::ByValue => 0,
        PassMode::ByRef => 1,
        PassMode::ByMutRef => 2,
    };
    if ra >= rb {
        a
    } else {
        b
    }
}

fn reference_mode(mutable: bool) -> (r: PassMode)
    ensures
        r == ref_mode(mutable),
{
    if mutable {
        PassMode::ByMutRef
    } else {
        PassMode::ByRef
    }
}

fn declared_mode(t: Option<&TypeShape>) -> (r: PassMode)
    ensures
        r == type_mode(deref_type(t)),
{
    match t {
        Some(ts) => match &ts.kind {
            TypeKind::Reference { mutable, .. } => reference_mode(*mutable),
            _ => PassMode::ByValue,
        },
        None => PassMode::ByValue,
    }
}

fn marker_mode(by_ref: bool, mutable: bool) -> (r: PassMode)
    ensures
        r == binding_mode(by_ref, mutable),
{
    if mutable {
        PassMode::ByMutRef
    } else if by_ref {
        PassMode::ByRef
    } else {
        PassMode::ByValue
    }
}

fn declared_text(t: Option<&TypeShape>) -> (r: Option<String>)
    ensures
        r == text_of(deref_type(t)),
{
    match t {
        Some(ts) => Some(ts.text.clone()),
        None => None,
    }
}

fn strip_refs<'a>(ts: &'a TypeShape, m: PassMode) -> (r: (&'a TypeShape, PassMode))
    ensures
        *r.0 == strip_shape(*ts),
        r.1 == strip_shape_mode(*ts, m),
    decreases ts,
{
    match &ts.kind {
        TypeKind::Reference { mutable, elem } => strip_refs(&**elem, upgrade_mode(m, reference_mode(*mutable))),
        _ => (ts, m),
    }
}

fn strip_declared<'a>(t: Option<&'a TypeShape>, m: PassMode) -> (r: (Option<&'a TypeShape>, PassMode))
    ensures
        deref_type(r.0) == strip(deref_type(t)),
        r.1 == strip_mode(deref_type(t), m),
{
    match t {
        Some(ts) => {
            let (s, sm) = strip_refs(ts, m);
            (Some(s), sm)
        },
        None => (None, m),
    }
}

fn element_type_of<'a>(t: Option<&'a TypeShape>, n: usize, i: usize, tuple: bool) -> (r: Option<&'a TypeShape>)
    requires
        i < n,
    ensures
        deref_type(r) == element_type(deref_type(t), n as int, i as int, tuple),
{
    match t {
        Some(ts) => match &ts.kind {
            TypeKind::Tuple(v) => if tuple && v.len() == n {
                Some(&v[i])
            } else {
                None
            },
            TypeKind::Array(e) => if !tuple {
                Some(&**e)
            } else {
                None
            },
            _ => None,
        },
        None => None,
    }
}

/// Appends the bindings of `p`.
fn walk(p: &Pattern, t: Option<&TypeShape>, m: PassMode, out: &mut Vec<ClassifiedParameter>)
    ensures
        final(out)@ == old(out)@ + classify_pat(*p, deref_type(t), m),
    decreases p, 0int,
{
    match p {
        Pattern::Binding { name, by_ref, mutable, sub } => {
            let mode = upgrade_mode(upgrade_mode(m, declared_mode(t)), marker_mode(*by_ref, *mutable));
            out.push(ClassifiedParameter { name: Some(name.clone()), ty: declared_text(t), mode });
            match sub {
                Some(s) => {
                    walk(&**s, t, m, out);
                    assert(final(out)@ =~= old(out)@ + classify_pat(*p, deref_type(t), m));
                },
                None => {},
            }
        },
        Pattern::Wild => {
            let mode = upgrade_mode(m, declared_mode(t));
            out.push(ClassifiedParameter { name: None, ty: declared_text(t), mode });
        },
        Pattern::Reference { pat, .. } => {
            match t {
                Some(ts) => match &ts.kind {
                    TypeKind::Reference { mutable, elem } => {
                        walk(&**pat, Some(&**elem), upgrade_mode(m, reference_mode(*mutable)), out)
                    },
                    _ => walk(&**pat, None, m, out),
                },
                None => walk(&**pat, None, m, out),
            }
        },
        Pattern::Tuple(ps) => {
            let (st, sm) = strip_declared(t, m);
            walk_elements(ps, st, sm, true, out);
        },
        Pattern::Slice(ps) => {
            let (st, sm) = strip_declared(t, m);
            walk_elements(ps, st, sm, false, out);
        },
        Pattern::TupleStruct(ps) => {
            let (_, sm) = strip_declared(t, m);
            walk_elements(ps, None, sm, true, out);
        },
        Pattern::Struct(ps) => {
            let (_, sm) = strip_declared(t, m);
            walk_elements(ps, None, sm, true, out);
        },
        Pattern::Other => {
            assert(final(out)@ =~= old(out)@ + classify_pat(*p, deref_type(t), m));
        },
    }
}

/// Appends the bindings of a compound pattern's elements, left to right.
fn walk_elements(
    ps: &Vec<Pattern>,
    t: Option<&TypeShape>,
    m: PassMode,
    tuple: bool,
    out: &mut Vec<ClassifiedParameter>,
)
    ensures
        final(out)@ == old(out)@ + classify_prefix(ps@, ps@.len() as int, deref_type(t), m, tuple),
    decreases ps, 1int,
{
    let n = ps.len();
    let mut i: usize = 0;
    while i < n
        invariant
            n == ps@.len(),
            i <= n,
            out@ == old(out)@ + classify_prefix(ps@, i as int, deref_type(t), m, tuple),
        decreases n - i,
    {
        let et = element_type_of(t, n, i, tuple);
        walk(&ps[i], et, m, out);
        assert(out@ =~= old(out)@ + classify_prefix(ps@, i + 1, deref_type(t), m, tuple));
        i = i + 1;
    }
}

/// The parameter of a `self` receiver (`self`, `mut self`, `&self`, `&mut self`
/// or `self: T`), where `ty` is the receiver's type (`Self`, `&Self`, ...):
/// `mut` marks the binding only where the receiver is not a reference, since
/// in `&mut self` it belongs to the reference, which `ty` already records.
pub fn receiver_param(by_reference: bool, mutable: bool, ty: TypeShape) -> (p: Param)
    ensures
        p.pat matches Pattern::Binding { name, by_ref, mutable: m, sub } && name@ == "self"@
            && !by_ref && m == (!by_reference && mutable) && sub is None,
        p.ty == Some(ty),
{
    Param {
        pat: Pattern::Binding {
            name: "self".to_owned(),
            by_ref: false,
            mutable: !by_reference && mutable,
            sub: None,
        },
        ty: Some(ty),
    }
}

/// Classifies every binding of a parameter list: the bindings come in the order
/// of the parameters, and within one parameter left to right. A binding is held
/// by reference where its declared type, or the type of anything that encloses
/// it, is a reference (mutable where that reference is), or where its own
/// `ref` or `mut` marker asks for one; a marker never weakens what a type gave.
pub fn classify_params(params: &Vec<Param>) -> (r: Vec<ClassifiedParameter>)
    ensures
        r@ == classify_spec(params@),
{
    let mut out: Vec<ClassifiedParameter> = Vec::new();
    let n = params.len();
    let mut i: usize = 0;
    while i < n
        invariant
            n == params@.len(),
            i <= n,
            out@ == classify_list(params@, i as int),
        decreases n - i,
    {
        let p = &params[i];
        let t = match &p.ty {
            Some(ts) => Some(ts),
            None => None,
        };
        walk(&p.pat, t, PassMode::ByValue, &mut out);
        assert(out@ =~= classify_list(params@, i + 1));
        i = i + 1;
    }
    out
}

} // verus!
