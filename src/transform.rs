use vstd::prelude::*;
use vstd::std_specs::iter::IteratorSpec;
use vstd::string::*;

verus! {

/// The declared return type of a function, as written after `->`.
pub enum ReturnShape {
    /// No return type was written.
    Default,
    /// The token text of the written return type.
    Type(String),
}

impl View for ReturnShape {
    type V = Option<Seq<char>>;

    open spec fn view(&self) -> Option<Seq<char>> {
        match self {
            ReturnShape::Default => None,
            ReturnShape::Type(t) => Some(t@),
        }
    }
}

/// One attribute of a function, as token text.
pub struct Attr {
    /// Whether it is an inner attribute (`#![..]`, written inside the body).
    pub inner: bool,
    /// Its token text.
    pub text: String,
}

/// A function declaration split into the parts the rewrite treats apart,
/// each held as token text.
pub struct FnDecl {
    /// Each attribute of the function, outer and inner, in order.
    pub attrs: Vec<Attr>,
    /// The visibility (empty for private).
    pub vis: String,
    /// Qualifiers, `fn`, name, generic parameters and the parameter list.
    pub head: String,
    /// The declared return type.
    pub output: ReturnShape,
    /// The `where` clause (empty when there is none).
    pub where_clause: String,
    /// The statements of the body in their braces, inner attributes left out.
    pub block: String,
}

/// The mathematical model of a `FnDecl`; an attribute is its `inner` flag and
/// its text.
pub struct DeclModel {
    pub attrs: Seq<(bool, Seq<char>)>,
    pub vis: Seq<char>,
    pub head: Seq<char>,
    pub output: Option<Seq<char>>,
    pub where_clause: Seq<char>,
    pub block: Seq<char>,
}

pub open spec fn attr_model(a: Attr) -> (bool, Seq<char>) {
    (a.inner, a.text@)
}

impl View for FnDecl {
    type V = DeclModel;

    open spec fn view(&self) -> DeclModel {
        DeclModel {
            attrs: self.attrs@.map_values(|a: Attr| attr_model(a)),
            vis: self.vis@,
            head: self.head@,
            output: self.output@,
            where_clause: self.where_clause@,
            block: self.block@,
        }
    }
}

/// The return type every rewritten function declares.
pub open spec fn io_unit_result() -> Seq<char> {
    "::std::io::Result<()>"@
}

/// The characters of a type's text before its first `<`, spaces left out;
/// none where the text holds no `<`.
pub open spec fn path_before_angle(t: Seq<char>) -> Option<Seq<char>>
    decreases t.len(),
{
    if t.len() == 0 {
        None
    } else if t[0] == '<' {
        Some(Seq::empty())
    } else {
        prepend(
            if t[0] == ' ' {
                Seq::empty()
            } else {
                seq![t[0]]
            },
            path_before_angle(t.drop_first()),
        )
    }
}

pub open spec fn prepend(p: Seq<char>, o: Option<Seq<char>>) -> Option<Seq<char>> {
    match o {
        None => None,
        Some(q) => Some(p + q),
    }
}

/// A path whose last segment is `Result`.
pub open spec fn names_result(p: Seq<char>) -> bool {
    let n = p.len();
    n >= 6 && p.subrange(n - 6, n as int) == seq!['R', 'e', 's', 'u', 'l', 't'] && (n == 6 || (n
        >= 8 && p[n - 8] == ':' && p[n - 7] == ':'))
}

/// The two-part success/error shape: a path type ending in `Result`, with
/// generic arguments (`Result<T, E>`, `io::Result<T>`). An alias of another
/// name is not recognised.
pub open spec fn result_shaped(t: Seq<char>) -> bool {
    match path_before_angle(t) {
        Some(p) => names_result(p),
        None => false,
    }
}

/// The type of the outcome that the rewritten function filters: the declared
/// return type where it has the `Result` shape; otherwise the body's value,
/// of the declared type or unit, is taken as a success of an `io::Result`.
pub open spec fn outcome_type_text(output: Option<Seq<char>>) -> Seq<char> {
    match output {
        None => io_unit_result(),
        Some(t) => if result_shaped(t) {
            t
        } else {
            "::std::io::Result< "@ + t + " >"@
        },
    }
}

/// Whether the body's value is taken as a success rather than as an outcome.
pub open spec fn wraps_value(output: Option<Seq<char>>) -> bool {
    match output {
        None => true,
        Some(t) => !result_shaped(t),
    }
}

/// The expression that runs the original body, in full, inside a closure,
/// and yields its outcome: the body's own value where it is an outcome, else
/// that value wrapped as a success.
pub open spec fn outcome_expr(output: Option<Seq<char>>, body: Seq<char>) -> Seq<char> {
    if wraps_value(output) {
        "::std::io::Result::Ok ( ( || "@ + body + " ) ( ) )"@
    } else {
        "( || "@ + body + " ) ( )"@
    }
}

/// The rewritten body: the inner attributes, then the original body's outcome,
/// which is handed to the broken-pipe filter.
pub open spec fn guarded_block(inner: Seq<char>, output: Option<Seq<char>>, body: Seq<char>) -> Seq<
    char,
> {
    "{ "@ + inner + "let res : "@ + outcome_type_text(output) + " = "@ + outcome_expr(output, body)
        + " ; ::calm_io::suppress_broken_pipe ( res ) }"@
}

/// The outer attributes, in order.
pub open spec fn outer_attrs(attrs: Seq<(bool, Seq<char>)>) -> Seq<(bool, Seq<char>)>
    decreases attrs.len(),
{
    if attrs.len() == 0 {
        Seq::empty()
    } else if attrs.last().0 {
        outer_attrs(attrs.drop_last())
    } else {
        outer_attrs(attrs.drop_last()).push(attrs.last())
    }
}

/// The inner attributes, each followed by a space.
pub open spec fn inner_text(attrs: Seq<(bool, Seq<char>)>) -> Seq<char>
    decreases attrs.len(),
{
    if attrs.len() == 0 {
        Seq::empty()
    } else if attrs.last().0 {
        inner_text(attrs.drop_last()) + attrs.last().1 + " "@
    } else {
        inner_text(attrs.drop_last())
    }
}

/// The declaration after the rewrite: outer attributes, visibility, head and
/// `where` clause unchanged, the uniform error channel as return type, and
/// the guarded body, which holds the inner attributes.
pub open spec fn rewritten(d: DeclModel) -> DeclModel {
    DeclModel {
        attrs: outer_attrs(d.attrs),
        output: Some(io_unit_result()),
        block: guarded_block(inner_text(d.attrs), d.output, d.block),
        ..d
    }
}

/// Each attribute's text followed by a space.
pub open spec fn attrs_text(attrs: Seq<(bool, Seq<char>)>) -> Seq<char>
    decreases attrs.len(),
{
    if attrs.len() == 0 {
        Seq::empty()
    } else {
        attrs_text(attrs.drop_last()) + attrs.last().1 + " "@
    }
}

pub open spec fn output_text(output: Option<Seq<char>>) -> Seq<char> {
    match output {
        None => Seq::empty(),
        Some(t) => " -> "@ + t,
    }
}

/// The source text of a declaration whose attributes all stand in front of
/// it, as after the rewrite.
pub open spec fn rendered(d: DeclModel) -> Seq<char> {
    attrs_text(d.attrs) + d.vis + " "@ + d.head + output_text(d.output) + " "@ + d.where_clause
        + " "@ + d.block
}

/// The source text that stands in place of an item that is not a function:
/// a build error that names the restriction.
pub open spec fn rejection_text() -> Seq<char> {
    "::core::compile_error! { \"pipefail is only applicable to functions\" }"@
}

/// The source text that replaces the marked item: the rewritten function, or
/// the rejection where the item is not a function.
pub open spec fn expansion(parsed: Option<DeclModel>) -> Seq<char> {
    match parsed {
        Some(d) => rendered(rewritten(d)),
        None => rejection_text(),
    }
}

/// Rewriting a rewritten declaration again keeps its attributes, visibility,
/// head, return type and `where` clause, and wraps the body once more in a
/// filter whose input is the first body's outcome itself, an
/// `io::Result<()>` that is not wrapped again; with `lemma_filter_idempotent`,
/// the second filter passes that outcome on unchanged.
pub proof fn lemma_rewrite_twice(d: DeclModel)
    ensures
        rewritten(rewritten(d)).attrs == rewritten(d).attrs,
        rewritten(rewritten(d)).vis == rewritten(d).vis,
        rewritten(rewritten(d)).head == rewritten(d).head,
        rewritten(rewritten(d)).output == rewritten(d).output,
        rewritten(rewritten(d)).where_clause == rewritten(d).where_clause,
        rewritten(rewritten(d)).block == guarded_block(
            Seq::empty(),
            Some(io_unit_result()),
            rewritten(d).block,
        ),
        !wraps_value(Some(io_unit_result())),
{
    lemma_outer_attrs_outer(d.attrs);
    reveal_strlit("::std::io::Result<()>");
    let t = io_unit_result();
    assert(t.len() == 21);
    lemma_io_unit_path(0);
    assert(t.skip(0) =~= t);
    let p = t.subrange(0, 17);
    assert(p.subrange(11, 17) =~= seq!['R', 'e', 's', 'u', 'l', 't']);
    assert(p[9] == ':' && p[10] == ':');
}

/// The path of the uniform return type, read from position `k` on.
proof fn lemma_io_unit_path(k: int)
    requires
        0 <= k <= 17,
    ensures
        path_before_angle(io_unit_result().skip(k)) == Some(io_unit_result().subrange(k, 17)),
    decreases 17 - k,
{
    reveal_strlit("::std::io::Result<()>");
    let t = io_unit_result();
    assert(t.len() == 21);
    assert(t[17] == '<');
    if k < 17 {
        lemma_io_unit_path(k + 1);
        assert(t.skip(k).drop_first() =~= t.skip(k + 1));
        assert(t[k] != '<' && t[k] != ' ');
        assert(seq![t[k]] + t.subrange(k + 1, 17) =~= t.subrange(k, 17));
    } else {
        assert(t.subrange(17, 17) =~= Seq::<char>::empty());
    }
}

/// Only outer attributes remain after keeping the outer ones.
pub proof fn lemma_outer_attrs_outer(attrs: Seq<(bool, Seq<char>)>)
    ensures
        outer_attrs(outer_attrs(attrs)) == outer_attrs(attrs),
        inner_text(outer_attrs(attrs)) == Seq::<char>::empty(),
    decreases attrs.len(),
{
    if attrs.len() > 0 {
        lemma_outer_attrs_outer(attrs.drop_last());
        if !attrs.last().0 {
            let o = outer_attrs(attrs);
            assert(o.drop_last() =~= outer_attrs(attrs.drop_last()));
        }
    }
}

proof fn lemma_prepend_prepend()
    ensures
        forall|p: Seq<char>, x: Seq<char>, o: Option<Seq<char>>|
            #[trigger] prepend(p, prepend(x, o)) == prepend(p + x, o),
{
    assert forall|p: Seq<char>, x: Seq<char>, o: Option<Seq<char>>|
        #[trigger] prepend(p, prepend(x, o)) == prepend(p + x, o) by {
        if let Some(q) = o {
            assert(p + (x + q) =~= (p + x) + q);
        }
    }
}

/// Whether a type's text has the `Result` shape.
pub fn is_result_type(t: &str) -> (r: bool)
    ensures
        r == result_shaped(t@),
{
    broadcast use vstd::string::axiom_spec_iter, vstd::string::next_postcondition;

    proof {
        lemma_prepend_prepend();
    }
    let mut it = t.chars();
    let mut p: Vec<char> = Vec::new();
    loop
        invariant_except_break
            path_before_angle(t@) == prepend(p@, path_before_angle(it.remaining())),
        invariant
            it.decrease() is Some,
        ensures
            path_before_angle(t@) == Some(p@),
        decreases it.decrease()->0,
    {
        match it.next() {
            None => {
                return false;
            },
            Some(c) => {
                if c == '<' {
                    assert(p@ + Seq::<char>::empty() =~= p@);
                    break ;
                }
                let ghost old_p = p@;
                if c != ' ' {
                    p.push(c);
                    assert(old_p + seq![c] =~= p@);
                } else {
                    assert(old_p + Seq::<char>::empty() =~= p@);
                }
            },
        }
    }
    let n = p.len();
    if n < 6 {
        return false;
    }
    let tail = p[n - 6] == 'R' && p[n - 5] == 'e' && p[n - 4] == 's' && p[n - 3] == 'u' && p[n
        - 2] == 'l' && p[n - 1] == 't';
    proof {
        let sub = p@.subrange(n - 6, n as int);
        let lit = seq!['R', 'e', 's', 'u', 'l', 't'];
        if tail {
            assert(sub =~= lit);
        } else if sub == lit {
            assert(sub[0] == lit[0] && sub[1] == lit[1] && sub[2] == lit[2] && sub[3] == lit[3]
                && sub[4] == lit[4] && sub[5] == lit[5]);
        }
    }
    tail && (n == 6 || (n >= 8 && p[n - 8] == ':' && p[n - 7] == ':'))
}

/// The type of the outcome that the rewritten function filters.
pub fn outcome_type(output: &ReturnShape) -> (r: String)
    ensures
        r@ == outcome_type_text(output@),
{
    match output {
        ReturnShape::Default => String::from_str("::std::io::Result<()>"),
        ReturnShape::Type(t) => {
            if is_result_type(t.as_str()) {
                t.clone()
            } else {
                let mut r = String::from_str("::std::io::Result< ");
                r.append(t.as_str());
                r.append(" >");
                r
            }
        },
    }
}

/// Rewrites a declaration so that its body's broken-pipe failures become
/// success and every other failure is passed on unchanged.
pub fn rewrite(decl: FnDecl) -> (r: FnDecl)
    ensures
        r@ == rewritten(decl@),
{
    let mut outer: Vec<Attr> = Vec::new();
    let mut inner = String::new();
    let n = decl.attrs.len();
    let mut i: usize = 0;
    while i < n
        invariant
            n == decl.attrs@.len(),
            i <= n,
            outer@.map_values(|a: Attr| attr_model(a)) == outer_attrs(decl@.attrs.take(i as int)),
            inner@ == inner_text(decl@.attrs.take(i as int)),
        decreases n - i,
    {
        let a = &decl.attrs[i];
        let ghost old_outer = outer@;
        proof {
            let next = decl@.attrs.take(i + 1);
            assert(next.drop_last() =~= decl@.attrs.take(i as int));
            assert(next.last() == attr_model(decl.attrs@[i as int]));
        }
        if a.inner {
            inner.append(a.text.as_str());
            inner.append(" ");
        } else {
            outer.push(Attr { inner: false, text: a.text.clone() });
            assert(outer@.map_values(|a: Attr| attr_model(a)) =~= old_outer.map_values(
                |a: Attr| attr_model(a),
            ).push(attr_model(decl.attrs@[i as int])));
        }
        i = i + 1;
    }
    assert(decl@.attrs.take(n as int) =~= decl@.attrs);
    let ty = outcome_type(&decl.output);
    let wrap = match &decl.output {
        ReturnShape::Default => true,
        ReturnShape::Type(t) => !is_result_type(t.as_str()),
    };
    let expr = if wrap {
        let mut e = String::from_str("::std::io::Result::Ok ( ( || ");
        e.append(decl.block.as_str());
        e.append(" ) ( ) )");
        e
    } else {
        let mut e = String::from_str("( || ");
        e.append(decl.block.as_str());
        e.append(" ) ( )");
        e
    };
    assert(expr@ =~= outcome_expr(decl@.output, decl@.block));
    let mut block = String::from_str("{ ");
    block.append(inner.as_str());
    block.append("let res : ");
    block.append(ty.as_str());
    block.append(" = ");
    block.append(expr.as_str());
    block.append(" ; ::calm_io::suppress_broken_pipe ( res ) }");
    let r = FnDecl {
        attrs: outer,
        vis: decl.vis,
        head: decl.head,
        output: ReturnShape::Type(String::from_str("::std::io::Result<()>")),
        where_clause: decl.where_clause,
        block,
    };
    assert(r@.attrs =~= rewritten(decl@).attrs);
    assert(r@.block =~= rewritten(decl@).block);
    r
}

/// The source text of a declaration whose attributes all stand in front of
/// it, as after the rewrite.
pub fn render(decl: &FnDecl) -> (r: String)
    ensures
        r@ == rendered(decl@),
{
    let mut r = String::new();
    let n = decl.attrs.len();
    let mut i: usize = 0;
    while i < n
        invariant
            n == decl.attrs@.len(),
            i <= n,
            r@ == attrs_text(decl@.attrs.take(i as int)),
        decreases n - i,
    {
        r.append(decl.attrs[i].text.as_str());
        r.append(" ");
        proof {
            let next = decl@.attrs.take(i + 1);
            assert(next.drop_last() =~= decl@.attrs.take(i as int));
            assert(next.last() == attr_model(decl.attrs@[i as int]));
        }
        i = i + 1;
    }
    assert(decl@.attrs.take(n as int) =~= decl@.attrs);
    r.append(decl.vis.as_str());
    r.append(" ");
    r.append(decl.head.as_str());
    match &decl.output {
        ReturnShape::Default => {},
        ReturnShape::Type(t) => {
            r.append(" -> ");
            r.append(t.as_str());
        },
    }
    r.append(" ");
    r.append(decl.where_clause.as_str());
    r.append(" ");
    r.append(decl.block.as_str());
    r
}

/// The build error that stands in place of an item that is not a function.
pub fn rejection() -> (r: String)
    ensures
        r@ == rejection_text(),
{
    String::from_str("::core::compile_error! { \"pipefail is only applicable to functions\" }")
}

/// The source text that replaces the marked item.
pub fn expand_decl(parsed: Option<FnDecl>) -> (r: String)
    ensures
        r@ == expansion(
            match parsed {
                Some(d) => Some(d@),
                None => None,
            },
        ),
{
    match parsed {
        Some(d) => render(&rewrite(d)),
        None => rejection(),
    }
}

} // verus!
