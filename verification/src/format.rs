//! Source pretty-printer.
//!
//! [`format_program`] renders a program without comments.
//! [`format_program_with_comments`] interleaves the comments of the source at
//! the indent of their surroundings, keeps blank lines between groups, and
//! keeps a comment that follows a statement or a declaration on its line.

use vstd::prelude::*;
use crate::ast::{
    Comment, CommentView, ConstDecl, ConstDeclView, EnumDecl, EnumDeclView, Expr, ExprKind,
    ExprKindView, ExprView, FieldDecl, FieldDeclView, Function, FunctionView, ImplDecl,
    ImplDeclView, IntentDecl, IntentDeclView, InterfaceDecl, InterfaceDeclView, InterfaceMethod,
    InterfaceMethodView, MatchArm, MatchArmView, MethodsBlock, MethodsBlockView, Param, ParamView,
    Pattern, PatternView, PrintItem, PrintItemView, Program, ProgramView, Reduction, ReductionView,
    Stmt, StmtView, StructDecl, StructDeclView, Type, TypeAlias, TypeAliasView, TypeView, UseDecl,
    UseDeclView, VariantDecl, VariantDeclView, WhereClause, WhereClauseView, binary_symbol,
    reduction_symbol, stmt_span, type_text, type_texts, unary_symbol,
};
use crate::sheet::{
    Sheet, SheetView, TopItem, TopItemView, break_between, comment_text, has_blank_line_before,
    indent_lines, insert_item, item_end, item_start, write_text,
};
use crate::text::{
    cat2, cat3, cat4, cat5, cat6, cat7, chars_of, drop_last, extend, int_text, join, push, put,
    size_of_text, text, text_of, trim,
};

verus! {

broadcast use {
    crate::text::group_text_views,
    crate::ast::group_ast_views,
    crate::diagnostic::group_diagnostic_views,
    crate::sheet::group_sheet_views,
    crate::state::group_state_views,
};

/// What [`ends_line`] computes.
pub open spec fn ends_line_spec(out: Seq<char>) -> bool
{
    out.len() > 0 && out[out.len() - 1] == '\n'
}

/// Whether what is written so far ends with a line break.
pub fn ends_line(out: &Vec<char>) -> (r: bool)
    ensures
        r == ends_line_spec(out@),
{
    out.len() > 0 && out[out.len() - 1] == '\n'
}

/// What [`ends_blank`] computes.
pub open spec fn ends_blank_spec(out: Seq<char>) -> bool
{
    out.len() > 1 && out[out.len() - 1] == '\n' && out[out.len() - 2] == '\n'
}

/// Whether what is written so far ends with an empty line.
pub fn ends_blank(out: &Vec<char>) -> (r: bool)
    ensures
        r == ends_blank_spec(out@),
{
    out.len() > 1 && out[out.len() - 1] == '\n' && out[out.len() - 2] == '\n'
}

/// What [`opens_block`] computes.
pub open spec fn opens_block_spec(out: Seq<char>, n: int) -> bool
    decreases n,
{
    if n < 1 {
        false
    } else if out[n - 1] == '\n' {
        opens_block_spec(out, n - 1)
    } else {
        out[n - 1] == '{'
    }
}

/// Whether the last character before the line breaks at the end of the first
/// `n` characters opens a block.
pub fn opens_block(out: &Vec<char>, n: usize) -> (r: bool)
    requires
        n <= out.len(),
    ensures
        r == opens_block_spec(out@, n as int),
    decreases n,
{
    if n < 1 {
        false
    } else if out[n - 1] == '\n' {
        opens_block(out, n - 1)
    } else {
        out[n - 1] == '{'
    }
}

/// What [`maybe_preserve_blank`] computes.
pub open spec fn maybe_preserve_blank_spec(
    source: Seq<char>,
    pos: int,
    inner: bool,
    st: SheetView,
) -> SheetView
{
    if crate::sheet::has_blank_line_before_spec(source, pos) && ends_line_spec(st.out)
        && !ends_blank_spec(st.out) && !(inner
        && opens_block_spec(st.out, (st.out.len() as int))) {
        crate::sheet::write_text_spec(st, "\n"@)
    } else {
        st
    }
}

/// Mirrors a blank line of the source before `pos`, except at the start of the
/// output, after another blank line and, where `inner` holds, right after an
/// opening brace.
pub fn maybe_preserve_blank(source: &str, pos: usize, inner: bool, st: Sheet) -> (r: Sheet)
    ensures
        r@ == maybe_preserve_blank_spec(source@, pos as int, inner, st@),
{
    if has_blank_line_before(source, pos) && ends_line(&st.out) && !ends_blank(&st.out) && !(inner
        && opens_block(&st.out, st.out.len())) {
        write_text(st, "\n")
    } else {
        st
    }
}

/// What [`place_comment`] computes.
pub open spec fn place_comment_spec(
    pad: Seq<char>,
    comments: Seq<CommentView>,
    st: SheetView,
) -> SheetView
{
    let out = st.out + pad;
    let out = out + crate::sheet::comment_text_spec(comments[st.cursor]);
    let out = out + "\n"@;
    SheetView { out, cursor: st.cursor + 1 }
}

/// Writes the next pending comment behind `pad`, up to the end of its line.
pub fn place_comment(pad: &str, comments: &[Comment], st: Sheet) -> (r: Sheet)
    requires
        st.cursor < comments.len(),
    ensures
        r@ == place_comment_spec(pad@, crate::ast::comments_view(comments@), st@),
{
    let out = put(st.out, pad);
    let out = put(out, &comment_text(&comments[st.cursor]));
    let out = put(out, "\n");
    Sheet { out, cursor: st.cursor + 1 }
}

/// What [`drain_to`] computes.
pub open spec fn drain_to_spec(
    source: Seq<char>,
    comments: Seq<CommentView>,
    pos: int,
    pad: Seq<char>,
    st: SheetView,
) -> SheetView
    decreases comments.len() - st.cursor,
{
    if st.cursor < comments.len() && comments[st.cursor].span.start < pos {
        let st = {
            let st = maybe_preserve_blank_spec(
                source,
                ((comments[st.cursor].span.start) as int),
                true,
                st,
            );
            place_comment_spec(pad, comments, st)
        };
        drain_to_spec(source, comments, pos, pad, st)
    } else {
        st
    }
}

/// Writes every pending comment that starts before `pos`, each on a line of
/// its own behind `pad`.
pub fn drain_to(source: &str, comments: &[Comment], pos: usize, pad: &str, st: Sheet) -> (r: Sheet)
    ensures
        r@ == drain_to_spec(source@, crate::ast::comments_view(comments@), pos as int, pad@, st@),
{
    let ghost whole_run = drain_to_spec(
        source@,
        crate::ast::comments_view(comments@),
        pos as int,
        pad@,
        st@,
    );
    let mut st = st;
    while st.cursor < comments.len() && comments[st.cursor].span.start < pos
        invariant
            drain_to_spec(
                source@,
                crate::ast::comments_view(comments@),
                pos as int,
                pad@,
                st@,
            ) == whole_run,
        decreases comments.len() - st.cursor,
    {
        st = {
            let st = maybe_preserve_blank(source, comments[st.cursor].span.start, true, st);
            place_comment(pad, comments, st)
        };
    }
    st
}

/// What [`next_comment_same_line_as`] computes.
pub open spec fn next_comment_same_line_as_spec(
    source: Seq<char>,
    comments: Seq<CommentView>,
    pos: int,
    cursor: int,
) -> bool
{
    if cursor >= comments.len() {
        false
    } else {
        let start: int = ((comments[cursor].span.start) as int);
        if start < pos || start > crate::text::size_of_text_spec(source) {
            false
        } else {
            !crate::sheet::break_between_spec(source, pos, start)
        }
    }
}

/// Whether the next pending comment stands on the line of `pos`, behind it.
pub fn next_comment_same_line_as(
    source: &str,
    comments: &[Comment],
    pos: usize,
    cursor: usize,
) -> (r: bool)
    ensures
        r == next_comment_same_line_as_spec(
            source@,
            crate::ast::comments_view(comments@),
            pos as int,
            cursor as int,
        ),
{
    if cursor >= comments.len() {
        false
    } else {
        let start: usize = comments[cursor].span.start;
        if start < pos || start > size_of_text(source) {
            false
        } else {
            !break_between(source, pos, start)
        }
    }
}

/// What [`unbreak`] computes.
pub open spec fn unbreak_spec(st: SheetView) -> SheetView
{
    SheetView { out: crate::text::drop_last_spec(st.out), cursor: st.cursor }
}

/// Takes the line break off the end.
pub fn unbreak(st: Sheet) -> (r: Sheet)
    requires
        st.out.len() > 0, st.out[st.out.len() - 1] == '\n',
    ensures
        r@ == unbreak_spec(st@),
{
    Sheet { out: drop_last(st.out), cursor: st.cursor }
}

/// What [`try_attach_trailing`] computes.
pub open spec fn try_attach_trailing_spec(
    source: Seq<char>,
    comments: Seq<CommentView>,
    pos: int,
    st: SheetView,
) -> SheetView
{
    if next_comment_same_line_as_spec(source, comments, pos, st.cursor) {
        let st = if ends_line_spec(st.out) { unbreak_spec(st) } else { st };
        place_comment_spec("  "@, comments, st)
    } else {
        st
    }
}

/// Attaches the next pending comment to the last line where it follows `pos`
/// on the same line of the source.
pub fn try_attach_trailing(source: &str, comments: &[Comment], pos: usize, st: Sheet) -> (r: Sheet)
    ensures
        r@ == try_attach_trailing_spec(
            source@,
            crate::ast::comments_view(comments@),
            pos as int,
            st@,
        ),
{
    if next_comment_same_line_as(source, comments, pos, st.cursor) {
        let st = if ends_line(&st.out) { unbreak(st) } else { st };
        place_comment("  ", comments, st)
    } else {
        st
    }
}

/// What [`drain_remaining`] computes.
pub open spec fn drain_remaining_spec(
    source: Seq<char>,
    comments: Seq<CommentView>,
    st: SheetView,
) -> SheetView
    decreases comments.len() - st.cursor,
{
    if st.cursor < comments.len() {
        let st = {
            let st = maybe_preserve_blank_spec(
                source,
                ((comments[st.cursor].span.start) as int),
                false,
                st,
            );
            place_comment_spec(""@, comments, st)
        };
        drain_remaining_spec(source, comments, st)
    } else {
        st
    }
}

/// Writes the comments left over at the end of the file.
pub fn drain_remaining(source: &str, comments: &[Comment], st: Sheet) -> (r: Sheet)
    ensures
        r@ == drain_remaining_spec(source@, crate::ast::comments_view(comments@), st@),
        r.cursor >= comments.len(),
{
    let ghost whole_run = drain_remaining_spec(source@, crate::ast::comments_view(comments@), st@);
    let mut st = st;
    while st.cursor < comments.len()
        invariant
            drain_remaining_spec(source@, crate::ast::comments_view(comments@), st@) == whole_run,
        decreases comments.len() - st.cursor,
    {
        st = {
            let st = maybe_preserve_blank(source, comments[st.cursor].span.start, false, st);
            place_comment("", comments, st)
        };
    }
    st
}

/// What [`lead_in`] computes.
pub open spec fn lead_in_spec(
    source: Seq<char>,
    comments: Seq<CommentView>,
    pos: int,
    pad: Seq<char>,
    st: SheetView,
) -> SheetView
{
    let st = drain_to_spec(source, comments, pos, pad, st);
    maybe_preserve_blank_spec(source, pos, true, st)
}

/// The comments and the blank line in front of a node that starts at `pos`.
pub fn lead_in(source: &str, comments: &[Comment], pos: usize, pad: &str, st: Sheet) -> (r: Sheet)
    ensures
        r@ == lead_in_spec(source@, crate::ast::comments_view(comments@), pos as int, pad@, st@),
{
    let st = drain_to(source, comments, pos, pad, st);
    maybe_preserve_blank(source, pos, true, st)
}

/// What [`escape_chars`] computes from position `i` on.
pub open spec fn escape_chars_spec(cs: Seq<char>, out: Seq<char>, i: int) -> Seq<char>
    decreases cs.len() - i,
{
    if 0 <= i < cs.len() {
        let c = cs[i];
        let out = if c == '\\' {
            out + "\\\\"@
        } else if c == '"' {
            out + "\\\""@
        } else if c == '\n' {
            out + "\\n"@
        } else if c == '\t' {
            out + "\\t"@
        } else if c == '\r' {
            out + "\\r"@
        } else if c == '\0' {
            out + "\\0"@
        } else {
            out.push(c)
        };
        escape_chars_spec(cs, out, i + 1)
    } else {
        out
    }
}

/// Adds characters as they are written inside a string literal.
pub fn escape_chars(cs: &Vec<char>, out: Vec<char>) -> (r: Vec<char>)
    ensures
        r@ == escape_chars_spec(cs@, out@, 0),
{
    let ghost whole_run = escape_chars_spec(cs@, out@, 0);
    let mut out = out;
    let mut i: usize = 0;
    while i < cs.len()
        invariant
            i <= cs.len(),
            escape_chars_spec(cs@, out@, i as int) == whole_run,
        decreases cs.len() - i,
    {
        let c = &cs[i];
        out = if *c == '\\' {
            put(out, "\\\\")
        } else if *c == '"' {
            put(out, "\\\"")
        } else if *c == '\n' {
            put(out, "\\n")
        } else if *c == '\t' {
            put(out, "\\t")
        } else if *c == '\r' {
            put(out, "\\r")
        } else if *c == '\0' {
            put(out, "\\0")
        } else {
            push(out, *c)
        };
        i += 1;
    }
    out
}

/// What [`escape_string`] computes.
pub open spec fn escape_string_spec(s: Seq<char>) -> Seq<char>
{
    escape_chars_spec(s, Seq::empty(), 0)
}

/// A text with the escapes of a string literal.
pub fn escape_string(s: &str) -> (r: String)
    ensures
        r@ == escape_string_spec(s@),
{
    text_of(&escape_chars(&chars_of(s), Vec::new()))
}

/// What [`format_pattern`] computes.
pub open spec fn format_pattern_spec(p: PatternView) -> Seq<char>
{
    match p {
        PatternView::Variant { enum_name, variant } => enum_name + "."@ + variant,
        PatternView::VariantWithBinding {
            enum_name,
            variant,
            binding,
        } => enum_name + "."@ + variant + "("@ + binding + ")"@,
        PatternView::Int(v) => crate::text::decimal(v as int),
        PatternView::Bool(b) => if b { "true"@ } else { "false"@ },
        PatternView::Str(s) => "\""@ + escape_string_spec(s) + "\""@,
        PatternView::Wildcard => "_"@,
    }
}

/// A pattern as it is written.
pub fn format_pattern(p: &Pattern) -> (r: String)
    ensures
        r@ == format_pattern_spec(p@),
{
    match p {
        Pattern::Variant { enum_name, variant } => cat3(enum_name, ".", variant),
        Pattern::VariantWithBinding { enum_name, variant, binding } => cat6(
            enum_name,
            ".",
            variant,
            "(",
            binding,
            ")",
        ),
        Pattern::Int(v) => int_text(*v),
        Pattern::Bool(b) => text(if *b { "true" } else { "false" }),
        Pattern::Str(s) => cat3("\"", &escape_string(s), "\""),
        Pattern::Wildcard => text("_"),
    }
}

/// What [`format_expr`] computes.
pub open spec fn format_expr_spec(e: ExprView, parens: bool) -> Seq<char>
    decreases e, 0int,
{
    match e.kind {
        ExprKindView::Int(v) => crate::text::decimal(v as int),
        ExprKindView::Float(v) => v.exact,
        ExprKindView::Bool(b) => if b { "true"@ } else { "false"@ },
        ExprKindView::Str(s) => "\""@ + escape_string_spec(s) + "\""@,
        ExprKindView::Var(name) => name,
        ExprKindView::Unary { op, expr } => crate::ast::unary_symbol_spec(op) + format_expr_spec(
            *expr,
            true,
        ),
        ExprKindView::Binary { op, left, right } => {
            let inner = format_expr_spec(*left, true) + " "@ + crate::ast::binary_symbol_spec(op)
                + " "@ + format_expr_spec(*right, true);
            if parens { "("@ + inner + ")"@ } else { inner }
        },
        ExprKindView::Call {
            name,
            args,
            ..
        } => name + "("@ + format_exprs_spec(args, ""@, 0) + ")"@,
        ExprKindView::MethodCall {
            receiver,
            method,
            args,
            ..
        } => format_expr_spec(*receiver, true) + "."@ + method + "("@ + format_exprs_spec(args, ""@, 0) + ")"@,
        ExprKindView::Cast { expr, ty } => "("@ + format_expr_spec(
            *expr,
            true,
        ) + " as "@ + crate::ast::type_text_spec(ty) + ")"@,
        ExprKindView::ArrayLit { elements } => "["@ + format_exprs_spec(elements, ""@, 0) + "]"@,
        ExprKindView::Index {
            array,
            index,
        } => format_expr_spec(*array, true) + "["@ + format_expr_spec(*index, false) + "]"@,
        ExprKindView::Len { array } => "len("@ + format_expr_spec(*array, false) + ")"@,
        ExprKindView::Ref { inner } => "ref "@ + format_expr_spec(*inner, true),
        ExprKindView::RefMut { inner } => "mut ref "@ + format_expr_spec(*inner, true),
        ExprKindView::Tuple(elements) => "("@ + format_exprs_spec(elements, ""@, 0) + ")"@,
        ExprKindView::TupleAccess {
            tuple,
            index,
        } => format_expr_spec(*tuple, true) + "."@ + crate::text::decimal((index as i128) as int),
        ExprKindView::StructLit {
            struct_name,
            fields,
            ..
        } => struct_name + " { "@ + format_fields_spec(fields, ""@, 0) + " }"@,
        ExprKindView::FieldAccess {
            object,
            field,
        } => format_expr_spec(*object, true) + "."@ + field,
        ExprKindView::Match {
            scrutinee,
            arms,
        } => "match "@ + format_expr_spec(*scrutinee, false) + " {"@ + format_arms_spec(arms, ""@, 0) + " }"@,
        ExprKindView::IfExpr {
            cond,
            then_value,
            else_value,
        } => "if "@ + format_expr_spec(*cond, false) + " { "@ + format_expr_spec(*then_value, false) + " } else { "@ + format_expr_spec(*else_value, false) + " }"@,
        ExprKindView::Block {
            stmts,
            tail,
        } => "{ "@ + format_inline_stmts_spec(stmts, ""@, 0) + format_expr_spec(*tail, false) + " }"@,
        ExprKindView::Try { inner } => "try "@ + format_expr_spec(*inner, true),
    }
}

/// An expression as source text. With `parens`, a binary expression is put in
/// parentheses.
pub fn format_expr(e: &Expr, parens: bool) -> (r: String)
    ensures
        r@ == format_expr_spec(e@, parens),
    decreases e, 0int,
{
    match &e.kind {
        ExprKind::Int(v) => int_text(*v),
        ExprKind::Float(v) => v.exact.clone(),
        ExprKind::Bool(b) => text(if *b { "true" } else { "false" }),
        ExprKind::Str(s) => cat3("\"", &escape_string(s), "\""),
        ExprKind::Var(name) => name.clone(),
        ExprKind::Unary { op, expr } => cat2(unary_symbol(*op), &format_expr(&**expr, true)),
        ExprKind::Binary { op, left, right } => {
            let inner = cat5(
                &format_expr(&**left, true),
                " ",
                binary_symbol(*op),
                " ",
                &format_expr(&**right, true),
            );
            if parens { cat3("(", &inner, ")") } else { inner }
        },
        ExprKind::Call { name, args, .. } => cat4(name, "(", &format_exprs(args, text("")), ")"),
        ExprKind::MethodCall { receiver, method, args, .. } => cat6(
            &format_expr(&**receiver, true),
            ".",
            method,
            "(",
            &format_exprs(args, text("")),
            ")",
        ),
        ExprKind::Cast { expr, ty } => cat5(
            "(",
            &format_expr(&**expr, true),
            " as ",
            &type_text(ty),
            ")",
        ),
        ExprKind::ArrayLit { elements } => cat3("[", &format_exprs(elements, text("")), "]"),
        ExprKind::Index { array, index } => cat4(
            &format_expr(&**array, true),
            "[",
            &format_expr(&**index, false),
            "]",
        ),
        ExprKind::Len { array } => cat3("len(", &format_expr(&**array, false), ")"),
        ExprKind::Ref { inner } => cat2("ref ", &format_expr(&**inner, true)),
        ExprKind::RefMut { inner } => cat2("mut ref ", &format_expr(&**inner, true)),
        ExprKind::Tuple(elements) => cat3("(", &format_exprs(elements, text("")), ")"),
        ExprKind::TupleAccess { tuple, index } => cat3(
            &format_expr(&**tuple, true),
            ".",
            &int_text(*index as i128),
        ),
        ExprKind::StructLit { struct_name, fields, .. } => cat4(
            struct_name,
            " { ",
            &format_fields(fields, text("")),
            " }",
        ),
        ExprKind::FieldAccess { object, field } => cat3(&format_expr(&**object, true), ".", field),
        ExprKind::Match { scrutinee, arms } => cat5(
            "match ",
            &format_expr(&**scrutinee, false),
            " {",
            &format_arms(arms, text("")),
            " }",
        ),
        ExprKind::IfExpr { cond, then_value, else_value } => cat7(
            "if ",
            &format_expr(&**cond, false),
            " { ",
            &format_expr(&**then_value, false),
            " } else { ",
            &format_expr(&**else_value, false),
            " }",
        ),
        ExprKind::Block { stmts, tail } => cat4(
            "{ ",
            &format_inline_stmts(stmts, text("")),
            &format_expr(&**tail, false),
            " }",
        ),
        ExprKind::Try { inner } => cat2("try ", &format_expr(&**inner, true)),
    }
}

/// What [`format_exprs`] computes from position `i` on.
pub open spec fn format_exprs_spec(es: Seq<ExprView>, out: Seq<char>, i: int) -> Seq<char>
    decreases es, es.len() - i,
{
    if 0 <= i < es.len() {
        let e = es[i];
        let out = {
            let out = if i > 0 { out + ", "@ } else { out };
            out + format_expr_spec(e, false)
        };
        format_exprs_spec(es, out, i + 1)
    } else {
        out
    }
}

/// Expressions separated by commas.
pub fn format_exprs(es: &Vec<Expr>, out: String) -> (r: String)
    ensures
        r@ == format_exprs_spec(crate::ast::exprs_view(es@), out@, 0),
    decreases es, es.len(),
{
    let ghost whole_run = format_exprs_spec(crate::ast::exprs_view(es@), out@, 0);
    let mut out = out;
    let mut i: usize = 0;
    while i < es.len()
        invariant
            i <= es.len(),
            format_exprs_spec(crate::ast::exprs_view(es@), out@, i as int) == whole_run,
        decreases es.len() - i,
    {
        let e = &es[i];
        out = {
            let out = if i > 0 { extend(out, ", ") } else { out };
            extend(out, &format_expr(e, false))
        };
        i += 1;
    }
    out
}

/// What [`format_fields`] computes from position `i` on.
pub open spec fn format_fields_spec(
    fs: Seq<(Seq<char>, ExprView)>,
    out: Seq<char>,
    i: int,
) -> Seq<char>
    decreases fs, fs.len() - i,
{
    if 0 <= i < fs.len() {
        let f = fs[i];
        let out = {
            let out = if i > 0 { out + ", "@ } else { out };
            let out = out + f.0 + ": "@;
            out + format_expr_spec(f.1, false)
        };
        format_fields_spec(fs, out, i + 1)
    } else {
        out
    }
}

/// Adds the fields of a struct literal.
pub fn format_fields(fs: &Vec<(String, Expr)>, out: String) -> (r: String)
    ensures
        r@ == format_fields_spec(crate::ast::named_exprs_view(fs@), out@, 0),
    decreases fs, fs.len(),
{
    let ghost whole_run = format_fields_spec(crate::ast::named_exprs_view(fs@), out@, 0);
    let mut out = out;
    let mut i: usize = 0;
    while i < fs.len()
        invariant
            i <= fs.len(),
            format_fields_spec(crate::ast::named_exprs_view(fs@), out@, i as int) == whole_run,
        decreases fs.len() - i,
    {
        let f = &fs[i];
        out = {
            let out = if i > 0 { extend(out, ", ") } else { out };
            let out = extend(extend(out, &f.0), ": ");
            extend(out, &format_expr(&f.1, false))
        };
        i += 1;
    }
    out
}

/// What [`format_arms`] computes from position `i` on.
pub open spec fn format_arms_spec(arms: Seq<MatchArmView>, out: Seq<char>, i: int) -> Seq<char>
    decreases arms, arms.len() - i,
{
    if 0 <= i < arms.len() {
        let arm = arms[i];
        let out = {
            let out = out + " "@ + format_pattern_spec(arm.pattern);
            let out = out + " then "@;
            out + format_expr_spec(arm.body, false) + ","@
        };
        format_arms_spec(arms, out, i + 1)
    } else {
        out
    }
}

/// Adds the arms of a match.
pub fn format_arms(arms: &Vec<MatchArm>, out: String) -> (r: String)
    ensures
        r@ == format_arms_spec(crate::ast::arms_view(arms@), out@, 0),
    decreases arms, arms.len(),
{
    let ghost whole_run = format_arms_spec(crate::ast::arms_view(arms@), out@, 0);
    let mut out = out;
    let mut i: usize = 0;
    while i < arms.len()
        invariant
            i <= arms.len(),
            format_arms_spec(crate::ast::arms_view(arms@), out@, i as int) == whole_run,
        decreases arms.len() - i,
    {
        let arm = &arms[i];
        out = {
            let out = extend(extend(out, " "), &format_pattern(&arm.pattern));
            let out = extend(out, " then ");
            extend(extend(out, &format_expr(&arm.body, false)), ",")
        };
        i += 1;
    }
    out
}

/// What [`format_inline_stmts`] computes from position `i` on.
pub open spec fn format_inline_stmts_spec(ss: Seq<StmtView>, out: Seq<char>, i: int) -> Seq<char>
    decreases ss, ss.len() - i,
{
    if 0 <= i < ss.len() {
        let s = ss[i];
        let out = {
            let none: Seq<CommentView> = Seq::empty();
            let st = format_stmt_spec(
                s,
                ""@,
                ""@,
                none,
                SheetView { out: Seq::empty(), cursor: 0 },
            );
            out + crate::text::trim_spec(st.out) + " "@
        };
        format_inline_stmts_spec(ss, out, i + 1)
    } else {
        out
    }
}

/// The statements of a block expression on one line.
pub fn format_inline_stmts(ss: &Vec<Stmt>, out: String) -> (r: String)
    ensures
        r@ == format_inline_stmts_spec(crate::ast::stmts_view(ss@), out@, 0),
    decreases ss, ss.len(),
{
    let ghost whole_run = format_inline_stmts_spec(crate::ast::stmts_view(ss@), out@, 0);
    let mut out = out;
    let mut i: usize = 0;
    while i < ss.len()
        invariant
            i <= ss.len(),
            format_inline_stmts_spec(crate::ast::stmts_view(ss@), out@, i as int) == whole_run,
        decreases ss.len() - i,
    {
        let s = &ss[i];
        out = {
            let none: Vec<Comment> = Vec::new();
            let st = format_stmt(s, "", "", none.as_slice(), Sheet { out: Vec::new(), cursor: 0 });
            extend(extend(out, &text_of(&trim(&st.out))), " ")
        };
        i += 1;
    }
    out
}

/// What [`format_print_items`] computes from position `i` on.
pub open spec fn format_print_items_spec(
    items: Seq<PrintItemView>,
    out: Seq<char>,
    i: int,
) -> Seq<char>
    decreases items, items.len() - i,
{
    if 0 <= i < items.len() {
        let item = items[i];
        let out = {
            let out = if i > 0 { out + ", "@ } else { out };
            match item {
                PrintItemView::Expr(e) => out + format_expr_spec(e, false),
                PrintItemView::Str(s) => out + ("\""@ + escape_string_spec(s) + "\""@),
            }
        };
        format_print_items_spec(items, out, i + 1)
    } else {
        out
    }
}

/// Adds the items of a `print`.
pub fn format_print_items(items: &Vec<PrintItem>, out: String) -> (r: String)
    ensures
        r@ == format_print_items_spec(crate::ast::print_items_view(items@), out@, 0),
    decreases items, items.len(),
{
    let ghost whole_run = format_print_items_spec(crate::ast::print_items_view(items@), out@, 0);
    let mut out = out;
    let mut i: usize = 0;
    while i < items.len()
        invariant
            i <= items.len(),
            format_print_items_spec(
                crate::ast::print_items_view(items@),
                out@,
                i as int,
            ) == whole_run,
        decreases items.len() - i,
    {
        let item = &items[i];
        out = {
            let out = if i > 0 { extend(out, ", ") } else { out };
            match item {
                PrintItem::Expr(e) => extend(out, &format_expr(e, false)),
                PrintItem::Str(s) => extend(out, &cat3("\"", &escape_string(s), "\"")),
            }
        };
        i += 1;
    }
    out
}

/// What [`format_clauses`] computes from position `i` on.
pub open spec fn format_clauses_spec(
    es: Seq<ExprView>,
    pad: Seq<char>,
    word: Seq<char>,
    out: Seq<char>,
    i: int,
) -> Seq<char>
    decreases es, es.len() - i,
{
    if 0 <= i < es.len() {
        let e = es[i];
        let out = out + (pad + word + format_expr_spec(e, false) + ";\n"@);
        format_clauses_spec(es, pad, word, out, i + 1)
    } else {
        out
    }
}

/// Adds the clauses of one kind, each on a line of its own.
pub fn format_clauses(es: &Vec<Expr>, pad: &str, word: &str, out: String) -> (r: String)
    ensures
        r@ == format_clauses_spec(crate::ast::exprs_view(es@), pad@, word@, out@, 0),
    decreases es, es.len(),
{
    let ghost whole_run = format_clauses_spec(crate::ast::exprs_view(es@), pad@, word@, out@, 0);
    let mut out = out;
    let mut i: usize = 0;
    while i < es.len()
        invariant
            i <= es.len(),
            format_clauses_spec(
                crate::ast::exprs_view(es@),
                pad@,
                word@,
                out@,
                i as int,
            ) == whole_run,
        decreases es.len() - i,
    {
        let e = &es[i];
        out = extend(out, &cat4(pad, word, &format_expr(e, false), ";\n"));
        i += 1;
    }
    out
}

/// What [`format_reductions`] computes from position `i` on.
pub open spec fn format_reductions_spec(
    rs: Seq<ReductionView>,
    pad: Seq<char>,
    out: Seq<char>,
    i: int,
) -> Seq<char>
    decreases rs.len() - i,
{
    if 0 <= i < rs.len() {
        let r = rs[i];
        let out = out
            + (pad + "reduce "@ + r.var + " with "@ + crate::ast::reduction_symbol_spec(r.op) + ";\n"@);
        format_reductions_spec(rs, pad, out, i + 1)
    } else {
        out
    }
}

/// Adds the reductions of a loop.
pub fn format_reductions(rs: &Vec<Reduction>, pad: &str, out: String) -> (r: String)
    ensures
        r@ == format_reductions_spec(crate::ast::reductions_view(rs@), pad@, out@, 0),
{
    let ghost whole_run = format_reductions_spec(crate::ast::reductions_view(rs@), pad@, out@, 0);
    let mut out = out;
    let mut i: usize = 0;
    while i < rs.len()
        invariant
            i <= rs.len(),
            format_reductions_spec(
                crate::ast::reductions_view(rs@),
                pad@,
                out@,
                i as int,
            ) == whole_run,
        decreases rs.len() - i,
    {
        let r = &rs[i];
        out = extend(out, &cat6(pad, "reduce ", &r.var, " with ", reduction_symbol(r.op), ";\n"));
        i += 1;
    }
    out
}

/// What [`comma_names`] computes from position `i` on.
pub open spec fn comma_names_spec(names: Seq<Seq<char>>, out: Seq<char>, i: int) -> Seq<char>
    decreases names.len() - i,
{
    if 0 <= i < names.len() {
        let n = names[i];
        let out = {
            let out = if i > 0 { out + ", "@ } else { out };
            out + n
        };
        comma_names_spec(names, out, i + 1)
    } else {
        out
    }
}

/// Adds names, with commas between them.
pub fn comma_names(names: &Vec<String>, out: String) -> (r: String)
    ensures
        r@ == comma_names_spec(crate::text::strs_view(names@), out@, 0),
{
    let ghost whole_run = comma_names_spec(crate::text::strs_view(names@), out@, 0);
    let mut out = out;
    let mut i: usize = 0;
    while i < names.len()
        invariant
            i <= names.len(),
            comma_names_spec(crate::text::strs_view(names@), out@, i as int) == whole_run,
        decreases names.len() - i,
    {
        let n = &names[i];
        out = {
            let out = if i > 0 { extend(out, ", ") } else { out };
            extend(out, n)
        };
        i += 1;
    }
    out
}

/// What [`dotted_names`] computes from position `i` on.
pub open spec fn dotted_names_spec(names: Seq<Seq<char>>, out: Seq<char>, i: int) -> Seq<char>
    decreases names.len() - i,
{
    if 0 <= i < names.len() {
        let n = names[i];
        let out = out + "."@ + n;
        dotted_names_spec(names, out, i + 1)
    } else {
        out
    }
}

/// Adds a field path.
pub fn dotted_names(names: &Vec<String>, out: String) -> (r: String)
    ensures
        r@ == dotted_names_spec(crate::text::strs_view(names@), out@, 0),
{
    let ghost whole_run = dotted_names_spec(crate::text::strs_view(names@), out@, 0);
    let mut out = out;
    let mut i: usize = 0;
    while i < names.len()
        invariant
            i <= names.len(),
            dotted_names_spec(crate::text::strs_view(names@), out@, i as int) == whole_run,
        decreases names.len() - i,
    {
        let n = &names[i];
        out = extend(extend(out, "."), n);
        i += 1;
    }
    out
}

/// What [`annotation_text`] computes.
pub open spec fn annotation_text_spec(annotation: Option<TypeView>) -> Seq<char>
{
    match annotation {
        Some(ty) => ": "@ + crate::ast::type_text_spec(ty),
        None => ""@,
    }
}

/// A type annotation, if there is one.
pub fn annotation_text(annotation: &Option<Type>) -> (r: String)
    ensures
        r@ == annotation_text_spec((match &annotation { Some(v0) => Some(v0@), None => None })),
{
    match annotation {
        Some(ty) => cat2(": ", &type_text(ty)),
        None => text(""),
    }
}

/// What [`format_block`] computes.
pub open spec fn format_block_spec(
    ss: Seq<StmtView>,
    pad: Seq<char>,
    end: int,
    source: Seq<char>,
    comments: Seq<CommentView>,
    st: SheetView,
) -> SheetView
    decreases ss, ss.len() + 1,
{
    let inner = pad + "  "@;
    let st = format_stmts_spec(ss, inner, source, comments, st, 0);
    drain_to_spec(source, comments, end, inner, st)
}

/// The statements of a block behind `pad`, and the comments before its end.
pub fn format_block(
    ss: &Vec<Stmt>,
    pad: &str,
    end: usize,
    source: &str,
    comments: &[Comment],
    st: Sheet,
) -> (r: Sheet)
    ensures
        r@ == format_block_spec(
            crate::ast::stmts_view(ss@),
            pad@,
            end as int,
            source@,
            crate::ast::comments_view(comments@),
            st@,
        ),
    decreases ss, ss.len() + 1,
{
    let inner = cat2(pad, "  ");
    let st = format_stmts(ss, &inner, source, comments, st);
    drain_to(source, comments, end, &inner, st)
}

/// What [`format_stmts`] computes from position `i` on.
pub open spec fn format_stmts_spec(
    ss: Seq<StmtView>,
    pad: Seq<char>,
    source: Seq<char>,
    comments: Seq<CommentView>,
    st: SheetView,
    i: int,
) -> SheetView
    decreases ss, ss.len() - i,
{
    if 0 <= i < ss.len() {
        let s = ss[i];
        let st = format_stmt_spec(s, pad, source, comments, st);
        format_stmts_spec(ss, pad, source, comments, st, i + 1)
    } else {
        st
    }
}

/// Writes statements with the comments between them.
pub fn format_stmts(
    ss: &Vec<Stmt>,
    pad: &str,
    source: &str,
    comments: &[Comment],
    st: Sheet,
) -> (r: Sheet)
    ensures
        r@ == format_stmts_spec(
            crate::ast::stmts_view(ss@),
            pad@,
            source@,
            crate::ast::comments_view(comments@),
            st@,
            0,
        ),
    decreases ss, ss.len(),
{
    let ghost whole_run = format_stmts_spec(
        crate::ast::stmts_view(ss@),
        pad@,
        source@,
        crate::ast::comments_view(comments@),
        st@,
        0,
    );
    let mut st = st;
    let mut i: usize = 0;
    while i < ss.len()
        invariant
            i <= ss.len(),
            format_stmts_spec(
                crate::ast::stmts_view(ss@),
                pad@,
                source@,
                crate::ast::comments_view(comments@),
                st@,
                i as int,
            ) == whole_run,
        decreases ss.len() - i,
    {
        let s = &ss[i];
        st = format_stmt(s, pad, source, comments, st);
        i += 1;
    }
    st
}

/// What [`format_stmt`] computes.
pub open spec fn format_stmt_spec(
    s: StmtView,
    pad: Seq<char>,
    source: Seq<char>,
    comments: Seq<CommentView>,
    st: SheetView,
) -> SheetView
    decreases s, 1int,
{
    let st = lead_in_spec(source, comments, (crate::ast::stmt_span_spec(s).start as int), pad, st);
    let st = format_stmt_alone_spec(s, pad, source, comments, st);
    try_attach_trailing_spec(source, comments, (crate::ast::stmt_span_spec(s).end as int), st)
}

/// A statement behind `pad`, with the comments that belong to it.
pub fn format_stmt(s: &Stmt, pad: &str, source: &str, comments: &[Comment], st: Sheet) -> (r: Sheet)
    ensures
        r@ == format_stmt_spec(s@, pad@, source@, crate::ast::comments_view(comments@), st@),
    decreases s, 1int,
{
    let st = lead_in(source, comments, stmt_span(s).start, pad, st);
    let st = format_stmt_alone(s, pad, source, comments, st);
    try_attach_trailing(source, comments, stmt_span(s).end, st)
}

/// What [`format_stmt_alone`] computes.
pub open spec fn format_stmt_alone_spec(
    s: StmtView,
    pad: Seq<char>,
    source: Seq<char>,
    comments: Seq<CommentView>,
    st: SheetView,
) -> SheetView
    decreases s, 0int,
{
    match s {
        StmtView::Let { name, annotation, expr, .. } => crate::sheet::write_text_spec(
            st,
            pad + "let "@ + name + annotation_text_spec(annotation) + " = "@
                + format_expr_spec(expr, false) + ";\n"@,
        ),
        StmtView::LetTuple { names, annotation, expr, .. } => {
            let st = crate::sheet::write_text_spec(
                st,
                pad + "let ("@ + comma_names_spec(names, ""@, 0) + ")"@,
            );
            crate::sheet::write_text_spec(
                st,
                annotation_text_spec(annotation) + " = "@ + format_expr_spec(expr, false) + ";\n"@,
            )
        },
        StmtView::Return { expr, .. } => crate::sheet::write_text_spec(
            st,
            pad + "return "@ + format_expr_spec(expr, false) + ";\n"@,
        ),
        StmtView::Assert { expr, message, .. } => {
            let st = crate::sheet::write_text_spec(
                st,
                pad + "assert "@ + format_expr_spec(expr, false),
            );
            match message {
                Some(m) => crate::sheet::write_text_spec(
                    st,
                    ", \""@ + escape_string_spec(m) + "\";\n"@,
                ),
                None => crate::sheet::write_text_spec(st, ";\n"@),
            }
        },
        StmtView::Prove { expr, .. } => crate::sheet::write_text_spec(
            st,
            pad + "prove "@ + format_expr_spec(expr, false) + ";\n"@,
        ),
        StmtView::Print { items, .. } => crate::sheet::write_text_spec(
            st,
            pad + "print "@ + format_print_items_spec(items, ""@, 0) + ";\n"@,
        ),
        StmtView::If { cond, then_body, else_body, span } => {
            let st = crate::sheet::write_text_spec(
                st,
                pad + "if "@ + format_expr_spec(cond, false) + " {\n"@,
            );
            if else_body.len() == 0 {
                let st = format_block_spec(then_body, pad, (span.end as int), source, comments, st);
                crate::sheet::write_text_spec(st, pad + "}\n"@)
            } else {
                let st = format_block_spec(
                    then_body,
                    pad,
                    (crate::ast::stmt_span_spec(else_body[0]).start as int),
                    source,
                    comments,
                    st,
                );
                let st = crate::sheet::write_text_spec(st, pad + "} else {\n"@);
                let st = format_block_spec(else_body, pad, (span.end as int), source, comments, st);
                crate::sheet::write_text_spec(st, pad + "}\n"@)
            }
        },
        StmtView::While { cond, invariants, body, span } => {
            let head = pad + "while "@ + format_expr_spec(cond, false) + "\n"@;
            let head = format_clauses_spec(invariants, pad, "invariant "@, head, 0);
            let st = crate::sheet::write_text_spec(st, head + pad + "{\n"@);
            let st = format_block_spec(body, pad, (span.end as int), source, comments, st);
            crate::sheet::write_text_spec(st, pad + "}\n"@)
        },
        StmtView::Assign { name, expr, .. } => crate::sheet::write_text_spec(
            st,
            pad + name + " = "@ + format_expr_spec(expr, false) + ";\n"@,
        ),
        StmtView::Break { .. } => crate::sheet::write_text_spec(st, pad + "break;\n"@),
        StmtView::Continue { .. } => crate::sheet::write_text_spec(st, pad + "continue;\n"@),
        StmtView::IndexAssign { name, index, field_path, value, .. } => {
            let st = crate::sheet::write_text_spec(
                st,
                pad + name + "["@ + format_expr_spec(index, false) + "]"@,
            );
            crate::sheet::write_text_spec(
                st,
                dotted_names_spec(field_path, ""@, 0) + " = "@ + format_expr_spec(value, false)
                    + ";\n"@,
            )
        },
        StmtView::FieldAssign { object, field, value, .. } => crate::sheet::write_text_spec(
            st,
            pad + format_expr_spec(object, true) + "."@ + field + " = "@
                + format_expr_spec(value, false) + ";\n"@,
        ),
        StmtView::For { var, start, end, invariants, body, span, parallel, reductions } => {
            let head = pad + (if parallel { "parallel "@ } else { ""@ }) + "for "@ + var;
            let head = head + " from "@ + format_expr_spec(start, false) + " to "@
                + format_expr_spec(end, false) + "\n"@;
            let head = format_clauses_spec(invariants, pad, "invariant "@, head, 0);
            let head = format_reductions_spec(reductions, pad, head, 0);
            let st = crate::sheet::write_text_spec(st, head + pad + "{\n"@);
            let st = format_block_spec(body, pad, (span.end as int), source, comments, st);
            crate::sheet::write_text_spec(st, pad + "}\n"@)
        },
        StmtView::ForIter { var, collection, consumes, body, span } => {
            let st = crate::sheet::write_text_spec(
                st,
                pad + "for "@ + var + " in "@ + (if consumes { ""@ } else { "ref "@ }) + collection
                    + " {\n"@,
            );
            let st = format_block_spec(body, pad, (span.end as int), source, comments, st);
            crate::sheet::write_text_spec(st, pad + "}\n"@)
        },
        StmtView::TaskSpawn { name, body, span } => {
            let st = crate::sheet::write_text_spec(st, pad + "task "@ + name + " {\n"@);
            let st = format_block_spec(body, pad, (span.end as int), source, comments, st);
            crate::sheet::write_text_spec(st, pad + "}\n"@)
        },
        StmtView::TaskJoin { name, .. } => crate::sheet::write_text_spec(
            st,
            pad + "join "@ + name + ";\n"@,
        ),
    }
}

/// A statement behind `pad`, with the comments inside it.
pub fn format_stmt_alone(
    s: &Stmt,
    pad: &str,
    source: &str,
    comments: &[Comment],
    st: Sheet,
) -> (r: Sheet)
    ensures
        r@ == format_stmt_alone_spec(s@, pad@, source@, crate::ast::comments_view(comments@), st@),
    decreases s, 0int,
{
    match s {
        Stmt::Let { name, annotation, expr, .. } => write_text(
            st,
            &cat7(
                pad,
                "let ",
                name,
                &annotation_text(annotation),
                " = ",
                &format_expr(expr, false),
                ";\n",
            ),
        ),
        Stmt::LetTuple { names, annotation, expr, .. } => {
            let st = write_text(st, &cat4(pad, "let (", &comma_names(names, text("")), ")"));
            write_text(
                st,
                &cat4(&annotation_text(annotation), " = ", &format_expr(expr, false), ";\n"),
            )
        },
        Stmt::Return { expr, .. } => write_text(
            st,
            &cat4(pad, "return ", &format_expr(expr, false), ";\n"),
        ),
        Stmt::Assert { expr, message, .. } => {
            let st = write_text(st, &cat3(pad, "assert ", &format_expr(expr, false)));
            match message {
                Some(m) => write_text(st, &cat3(", \"", &escape_string(m), "\";\n")),
                None => write_text(st, ";\n"),
            }
        },
        Stmt::Prove { expr, .. } => write_text(
            st,
            &cat4(pad, "prove ", &format_expr(expr, false), ";\n"),
        ),
        Stmt::Print { items, .. } => write_text(
            st,
            &cat4(pad, "print ", &format_print_items(items, text("")), ";\n"),
        ),
        Stmt::If { cond, then_body, else_body, span } => {
            let st = write_text(st, &cat4(pad, "if ", &format_expr(cond, false), " {\n"));
            if else_body.len() == 0 {
                let st = format_block(then_body, pad, span.end, source, comments, st);
                write_text(st, &cat2(pad, "}\n"))
            } else {
                let st = format_block(
                    then_body,
                    pad,
                    stmt_span(&else_body[0]).start,
                    source,
                    comments,
                    st,
                );
                let st = write_text(st, &cat2(pad, "} else {\n"));
                let st = format_block(else_body, pad, span.end, source, comments, st);
                write_text(st, &cat2(pad, "}\n"))
            }
        },
        Stmt::While { cond, invariants, body, span } => {
            let head = cat4(pad, "while ", &format_expr(cond, false), "\n");
            let head = format_clauses(invariants, pad, "invariant ", head);
            let st = write_text(st, &cat3(&head, pad, "{\n"));
            let st = format_block(body, pad, span.end, source, comments, st);
            write_text(st, &cat2(pad, "}\n"))
        },
        Stmt::Assign { name, expr, .. } => write_text(
            st,
            &cat5(pad, name, " = ", &format_expr(expr, false), ";\n"),
        ),
        Stmt::Break { .. } => write_text(st, &cat2(pad, "break;\n")),
        Stmt::Continue { .. } => write_text(st, &cat2(pad, "continue;\n")),
        Stmt::IndexAssign { name, index, field_path, value, .. } => {
            let st = write_text(st, &cat5(pad, name, "[", &format_expr(index, false), "]"));
            write_text(
                st,
                &cat4(
                    &dotted_names(field_path, text("")),
                    " = ",
                    &format_expr(value, false),
                    ";\n",
                ),
            )
        },
        Stmt::FieldAssign { object, field, value, .. } => write_text(
            st,
            &cat7(
                pad,
                &format_expr(object, true),
                ".",
                field,
                " = ",
                &format_expr(value, false),
                ";\n",
            ),
        ),
        Stmt::For { var, start, end, invariants, body, span, parallel, reductions } => {
            let head = cat4(pad, if *parallel { "parallel " } else { "" }, "for ", var);
            let head = cat6(
                &head,
                " from ",
                &format_expr(start, false),
                " to ",
                &format_expr(end, false),
                "\n",
            );
            let head = format_clauses(invariants, pad, "invariant ", head);
            let head = format_reductions(reductions, pad, head);
            let st = write_text(st, &cat3(&head, pad, "{\n"));
            let st = format_block(body, pad, span.end, source, comments, st);
            write_text(st, &cat2(pad, "}\n"))
        },
        Stmt::ForIter { var, collection, consumes, body, span } => {
            let st = write_text(
                st,
                &cat7(
                    pad,
                    "for ",
                    var,
                    " in ",
                    if *consumes { "" } else { "ref " },
                    collection,
                    " {\n",
                ),
            );
            let st = format_block(body, pad, span.end, source, comments, st);
            write_text(st, &cat2(pad, "}\n"))
        },
        Stmt::TaskSpawn { name, body, span } => {
            let st = write_text(st, &cat4(pad, "task ", name, " {\n"));
            let st = format_block(body, pad, span.end, source, comments, st);
            write_text(st, &cat2(pad, "}\n"))
        },
        Stmt::TaskJoin { name, .. } => write_text(st, &cat4(pad, "join ", name, ";\n")),
    }
}

/// What [`format_param`] computes.
pub open spec fn format_param_spec(p: ParamView) -> Seq<char>
{
    p.name + ": "@ + crate::ast::type_text_spec(p.ty)
}

/// A parameter as it is written.
pub fn format_param(p: &Param) -> (r: String)
    ensures
        r@ == format_param_spec(p@),
{
    cat3(&p.name, ": ", &type_text(&p.ty))
}

/// What [`format_params`] computes from position `i` on.
pub open spec fn format_params_spec(ps: Seq<ParamView>, out: Seq<char>, i: int) -> Seq<char>
    decreases ps.len() - i,
{
    if 0 <= i < ps.len() {
        let p = ps[i];
        let out = {
            let out = if i > 0 { out + ", "@ } else { out };
            out + format_param_spec(p)
        };
        format_params_spec(ps, out, i + 1)
    } else {
        out
    }
}

/// Adds parameters, with commas between them.
pub fn format_params(ps: &Vec<Param>, out: String) -> (r: String)
    ensures
        r@ == format_params_spec(crate::ast::params_view(ps@), out@, 0),
{
    let ghost whole_run = format_params_spec(crate::ast::params_view(ps@), out@, 0);
    let mut out = out;
    let mut i: usize = 0;
    while i < ps.len()
        invariant
            i <= ps.len(),
            format_params_spec(crate::ast::params_view(ps@), out@, i as int) == whole_run,
        decreases ps.len() - i,
    {
        let p = &ps[i];
        out = {
            let out = if i > 0 { extend(out, ", ") } else { out };
            extend(out, &format_param(p))
        };
        i += 1;
    }
    out
}

/// What [`format_where`] computes from position `i` on.
pub open spec fn format_where_spec(ws: Seq<WhereClauseView>, out: Seq<char>, i: int) -> Seq<char>
    decreases ws.len() - i,
{
    if 0 <= i < ws.len() {
        let w = ws[i];
        let out = {
            let out = if i > 0 { out + ", "@ } else { out };
            out + (w.type_param + " is "@ + w.interface_name)
        };
        format_where_spec(ws, out, i + 1)
    } else {
        out
    }
}

/// Adds the bounds on type parameters.
pub fn format_where(ws: &Vec<WhereClause>, out: String) -> (r: String)
    ensures
        r@ == format_where_spec(crate::ast::where_clauses_view(ws@), out@, 0),
{
    let ghost whole_run = format_where_spec(crate::ast::where_clauses_view(ws@), out@, 0);
    let mut out = out;
    let mut i: usize = 0;
    while i < ws.len()
        invariant
            i <= ws.len(),
            format_where_spec(crate::ast::where_clauses_view(ws@), out@, i as int) == whole_run,
        decreases ws.len() - i,
    {
        let w = &ws[i];
        out = {
            let out = if i > 0 { extend(out, ", ") } else { out };
            extend(out, &cat3(&w.type_param, " is ", &w.interface_name))
        };
        i += 1;
    }
    out
}

/// What [`function_head`] computes.
pub open spec fn function_head_spec(f: FunctionView) -> Seq<char>
{
    let head = (if f.is_pure { "pure "@ } else { ""@ }) + "fn "@ + f.name;
    let head = if f.type_params.len() > 0 {
        head + "<"@ + comma_names_spec(f.type_params, ""@, 0) + ">"@
    } else {
        head
    };
    let head = head + "("@ + format_params_spec(f.params, ""@, 0) + ") -> "@
        + crate::ast::type_text_spec(f.return_type);
    if f.where_clauses.len() > 0 {
        head + " where "@ + format_where_spec(f.where_clauses, ""@, 0)
    } else {
        head
    }
}

/// The line of a function up to its contracts.
pub fn function_head(f: &Function) -> (r: String)
    ensures
        r@ == function_head_spec(f@),
{
    let head = cat3(if f.is_pure { "pure " } else { "" }, "fn ", &f.name);
    let head = if f.type_params.len() > 0 {
        cat4(&head, "<", &comma_names(&f.type_params, text("")), ">")
    } else {
        head
    };
    let head = cat5(
        &head,
        "(",
        &format_params(&f.params, text("")),
        ") -> ",
        &type_text(&f.return_type),
    );
    if f.where_clauses.len() > 0 {
        cat3(&head, " where ", &format_where(&f.where_clauses, text("")))
    } else {
        head
    }
}

/// What [`format_function`] computes.
pub open spec fn format_function_spec(
    f: FunctionView,
    source: Seq<char>,
    comments: Seq<CommentView>,
    st: SheetView,
) -> SheetView
{
    let st = crate::sheet::write_text_spec(st, function_head_spec(f));
    let st = if f.requires.len() > 0 || f.ensures.len() > 0 {
        let st = crate::sheet::write_text_spec(st, "\n"@);
        let st = crate::sheet::write_text_spec(
            st,
            format_clauses_spec(f.requires, ""@, "requires "@, ""@, 0),
        );
        let st = crate::sheet::write_text_spec(
            st,
            format_clauses_spec(f.ensures, ""@, "ensures "@, ""@, 0),
        );
        crate::sheet::write_text_spec(st, "{\n"@)
    } else {
        crate::sheet::write_text_spec(st, " {\n"@)
    };
    let st = format_block_spec(f.body, ""@, (f.span.end as int), source, comments, st);
    crate::sheet::write_text_spec(st, "}\n"@)
}

/// Writes a function.
pub fn format_function(f: &Function, source: &str, comments: &[Comment], st: Sheet) -> (r: Sheet)
    ensures
        r@ == format_function_spec(f@, source@, crate::ast::comments_view(comments@), st@),
{
    let st = write_text(st, &function_head(f));
    let st = if f.requires.len() > 0 || f.ensures.len() > 0 {
        let st = write_text(st, "\n");
        let st = write_text(st, &format_clauses(&f.requires, "", "requires ", text("")));
        let st = write_text(st, &format_clauses(&f.ensures, "", "ensures ", text("")));
        write_text(st, "{\n")
    } else {
        write_text(st, " {\n")
    };
    let st = format_block(&f.body, "", f.span.end, source, comments, st);
    write_text(st, "}\n")
}

/// What [`format_members`] computes from position `i` on.
pub open spec fn format_members_spec(
    ms: Seq<FunctionView>,
    source: Seq<char>,
    comments: Seq<CommentView>,
    st: SheetView,
    i: int,
) -> SheetView
    decreases ms.len() - i,
{
    if 0 <= i < ms.len() {
        let m = ms[i];
        let st = {
            let st = if i > 0 { crate::sheet::write_text_spec(st, "\n"@) } else { st };
            let sub = format_function_spec(
                m,
                source,
                comments,
                SheetView { out: Seq::empty(), cursor: st.cursor },
            );
            SheetView { out: st.out + crate::sheet::indent_lines_spec(sub.out), cursor: sub.cursor }
        };
        format_members_spec(ms, source, comments, st, i + 1)
    } else {
        st
    }
}

/// The functions of a block, each written on its own and moved in.
pub fn format_members(
    ms: &Vec<Function>,
    source: &str,
    comments: &[Comment],
    st: Sheet,
) -> (r: Sheet)
    ensures
        r@ == format_members_spec(
            crate::ast::functions_view(ms@),
            source@,
            crate::ast::comments_view(comments@),
            st@,
            0,
        ),
{
    let ghost whole_run = format_members_spec(
        crate::ast::functions_view(ms@),
        source@,
        crate::ast::comments_view(comments@),
        st@,
        0,
    );
    let mut st = st;
    let mut i: usize = 0;
    while i < ms.len()
        invariant
            i <= ms.len(),
            format_members_spec(
                crate::ast::functions_view(ms@),
                source@,
                crate::ast::comments_view(comments@),
                st@,
                i as int,
            ) == whole_run,
        decreases ms.len() - i,
    {
        let m = &ms[i];
        st = {
            let st = if i > 0 { write_text(st, "\n") } else { st };
            let sub = format_function(
                m,
                source,
                comments,
                Sheet { out: Vec::new(), cursor: st.cursor },
            );
            Sheet { out: join(st.out, indent_lines(&sub.out)), cursor: sub.cursor }
        };
        i += 1;
    }
    st
}

/// What [`format_struct_fields`] computes from position `i` on.
pub open spec fn format_struct_fields_spec(
    fs: Seq<FieldDeclView>,
    out: Seq<char>,
    i: int,
) -> Seq<char>
    decreases fs.len() - i,
{
    if 0 <= i < fs.len() {
        let f = fs[i];
        let out = out + ("  "@ + f.name + ": "@ + crate::ast::type_text_spec(f.ty) + ",\n"@);
        format_struct_fields_spec(fs, out, i + 1)
    } else {
        out
    }
}

/// Adds the fields of a struct declaration.
pub fn format_struct_fields(fs: &Vec<FieldDecl>, out: String) -> (r: String)
    ensures
        r@ == format_struct_fields_spec(crate::ast::fields_view(fs@), out@, 0),
{
    let ghost whole_run = format_struct_fields_spec(crate::ast::fields_view(fs@), out@, 0);
    let mut out = out;
    let mut i: usize = 0;
    while i < fs.len()
        invariant
            i <= fs.len(),
            format_struct_fields_spec(crate::ast::fields_view(fs@), out@, i as int) == whole_run,
        decreases fs.len() - i,
    {
        let f = &fs[i];
        out = extend(out, &cat5("  ", &f.name, ": ", &type_text(&f.ty), ",\n"));
        i += 1;
    }
    out
}

/// What [`format_variants`] computes from position `i` on.
pub open spec fn format_variants_spec(vs: Seq<VariantDeclView>, out: Seq<char>, i: int) -> Seq<char>
    decreases vs.len() - i,
{
    if 0 <= i < vs.len() {
        let v = vs[i];
        let out = {
            let out = out + "  "@ + v.name;
            let out = if v.payload.len() > 0 {
                out + ("("@ + crate::ast::type_texts_spec(v.payload, ""@, 0) + ")"@)
            } else {
                out
            };
            out + ",\n"@
        };
        format_variants_spec(vs, out, i + 1)
    } else {
        out
    }
}

/// Adds the variants of an enum declaration.
pub fn format_variants(vs: &Vec<VariantDecl>, out: String) -> (r: String)
    ensures
        r@ == format_variants_spec(crate::ast::variants_view(vs@), out@, 0),
{
    let ghost whole_run = format_variants_spec(crate::ast::variants_view(vs@), out@, 0);
    let mut out = out;
    let mut i: usize = 0;
    while i < vs.len()
        invariant
            i <= vs.len(),
            format_variants_spec(crate::ast::variants_view(vs@), out@, i as int) == whole_run,
        decreases vs.len() - i,
    {
        let v = &vs[i];
        out = {
            let out = extend(extend(out, "  "), &v.name);
            let out = if v.payload.len() > 0 {
                extend(out, &cat3("(", &type_texts(&v.payload, text("")), ")"))
            } else {
                out
            };
            extend(out, ",\n")
        };
        i += 1;
    }
    out
}

/// What [`format_interface_methods`] computes from position `i` on.
pub open spec fn format_interface_methods_spec(
    ms: Seq<InterfaceMethodView>,
    out: Seq<char>,
    i: int,
) -> Seq<char>
    decreases ms.len() - i,
{
    if 0 <= i < ms.len() {
        let m = ms[i];
        let out = out
            + ("  fn "@ + m.name + "("@ + format_params_spec(m.params, ""@, 0) + ") -> "@ + crate::ast::type_text_spec(m.return_type) + ";\n"@);
        format_interface_methods_spec(ms, out, i + 1)
    } else {
        out
    }
}

/// Adds the methods of an interface.
pub fn format_interface_methods(ms: &Vec<InterfaceMethod>, out: String) -> (r: String)
    ensures
        r@ == format_interface_methods_spec(crate::ast::interface_methods_view(ms@), out@, 0),
{
    let ghost whole_run = format_interface_methods_spec(
        crate::ast::interface_methods_view(ms@),
        out@,
        0,
    );
    let mut out = out;
    let mut i: usize = 0;
    while i < ms.len()
        invariant
            i <= ms.len(),
            format_interface_methods_spec(
                crate::ast::interface_methods_view(ms@),
                out@,
                i as int,
            ) == whole_run,
        decreases ms.len() - i,
    {
        let m = &ms[i];
        out = extend(
            out,
            &cat7(
                "  fn ",
                &m.name,
                "(",
                &format_params(&m.params, text("")),
                ") -> ",
                &type_text(&m.return_type),
                ";\n",
            ),
        );
        i += 1;
    }
    out
}

/// What [`format_item`] computes.
pub open spec fn format_item_spec(
    item: TopItemView,
    source: Seq<char>,
    comments: Seq<CommentView>,
    st: SheetView,
) -> SheetView
{
    let st = lead_in_spec(source, comments, crate::sheet::item_start_spec(item), ""@, st);
    let st = format_item_alone_spec(item, source, comments, st);
    try_attach_trailing_spec(source, comments, crate::sheet::item_end_spec(item), st)
}

/// Writes a declaration, with the comments that belong to it.
pub fn format_item(item: &TopItem, source: &str, comments: &[Comment], st: Sheet) -> (r: Sheet)
    ensures
        r@ == format_item_spec(item@, source@, crate::ast::comments_view(comments@), st@),
{
    let st = lead_in(source, comments, item_start(item), "", st);
    let st = format_item_alone(item, source, comments, st);
    try_attach_trailing(source, comments, item_end(item), st)
}

/// What [`format_item_alone`] computes.
pub open spec fn format_item_alone_spec(
    item: TopItemView,
    source: Seq<char>,
    comments: Seq<CommentView>,
    st: SheetView,
) -> SheetView
{
    match item {
        TopItemView::Struct(d) => crate::sheet::write_text_spec(
            st,
            "struct "@ + d.name + " {\n"@ + format_struct_fields_spec(d.fields, ""@, 0) + "}\n"@,
        ),
        TopItemView::Enum(d) => crate::sheet::write_text_spec(
            st,
            "enum "@ + d.name + " {\n"@ + format_variants_spec(d.variants, ""@, 0) + "}\n"@,
        ),
        TopItemView::Interface(d) => crate::sheet::write_text_spec(
            st,
            "interface "@ + d.name + " {\n"@ + format_interface_methods_spec(d.methods, ""@, 0)
                + "}\n"@,
        ),
        TopItemView::Impl(d) => {
            let st = crate::sheet::write_text_spec(
                st,
                "implement "@ + d.interface_name + " for "@ + crate::ast::type_text_spec(d.for_type)
                    + " {\n"@,
            );
            let st = format_members_spec(d.methods, source, comments, st, 0);
            crate::sheet::write_text_spec(st, "}\n"@)
        },
        TopItemView::Const(d) => crate::sheet::write_text_spec(
            st,
            "const "@ + d.name + ": "@ + crate::ast::type_text_spec(d.ty) + " = "@
                + format_expr_spec(d.value, false) + ";\n"@,
        ),
        TopItemView::Alias(d) => crate::sheet::write_text_spec(
            st,
            "type "@ + d.name + " = "@ + crate::ast::type_text_spec(d.target) + ";\n"@,
        ),
        TopItemView::Methods(d) => {
            let st = crate::sheet::write_text_spec(
                st,
                "methods on "@ + crate::ast::type_text_spec(d.for_type) + " {\n"@,
            );
            let st = format_members_spec(d.methods, source, comments, st, 0);
            crate::sheet::write_text_spec(st, "}\n"@)
        },
        TopItemView::Function(d) => format_function_spec(d, source, comments, st),
    }
}

/// Writes a declaration, with the comments inside it.
pub fn format_item_alone(
    item: &TopItem,
    source: &str,
    comments: &[Comment],
    st: Sheet,
) -> (r: Sheet)
    ensures
        r@ == format_item_alone_spec(item@, source@, crate::ast::comments_view(comments@), st@),
{
    match item {
        TopItem::Struct(d) => write_text(
            st,
            &cat5("struct ", &d.name, " {\n", &format_struct_fields(&d.fields, text("")), "}\n"),
        ),
        TopItem::Enum(d) => write_text(
            st,
            &cat5("enum ", &d.name, " {\n", &format_variants(&d.variants, text("")), "}\n"),
        ),
        TopItem::Interface(d) => write_text(
            st,
            &cat5(
                "interface ",
                &d.name,
                " {\n",
                &format_interface_methods(&d.methods, text("")),
                "}\n",
            ),
        ),
        TopItem::Impl(d) => {
            let st = write_text(
                st,
                &cat5("implement ", &d.interface_name, " for ", &type_text(&d.for_type), " {\n"),
            );
            let st = format_members(&d.methods, source, comments, st);
            write_text(st, "}\n")
        },
        TopItem::Const(d) => write_text(
            st,
            &cat7(
                "const ",
                &d.name,
                ": ",
                &type_text(&d.ty),
                " = ",
                &format_expr(&d.value, false),
                ";\n",
            ),
        ),
        TopItem::Alias(d) => write_text(
            st,
            &cat5("type ", &d.name, " = ", &type_text(&d.target), ";\n"),
        ),
        TopItem::Methods(d) => {
            let st = write_text(st, &cat3("methods on ", &type_text(&d.for_type), " {\n"));
            let st = format_members(&d.methods, source, comments, st);
            write_text(st, "}\n")
        },
        TopItem::Function(d) => format_function(d, source, comments, st),
    }
}

/// What [`format_items`] computes from position `i` on.
pub open spec fn format_items_spec(
    items: Seq<TopItemView>,
    source: Seq<char>,
    comments: Seq<CommentView>,
    st: SheetView,
    i: int,
) -> SheetView
    decreases items.len() - i,
{
    if 0 <= i < items.len() {
        let item = items[i];
        let st = {
            let st = if i > 0 { crate::sheet::write_text_spec(st, "\n"@) } else { st };
            format_item_spec(item, source, comments, st)
        };
        format_items_spec(items, source, comments, st, i + 1)
    } else {
        st
    }
}

/// Writes declarations in the given order.
pub fn format_items(
    items: &Vec<TopItem>,
    source: &str,
    comments: &[Comment],
    st: Sheet,
) -> (r: Sheet)
    ensures
        r@ == format_items_spec(
            crate::sheet::items_view(items@),
            source@,
            crate::ast::comments_view(comments@),
            st@,
            0,
        ),
{
    let ghost whole_run = format_items_spec(
        crate::sheet::items_view(items@),
        source@,
        crate::ast::comments_view(comments@),
        st@,
        0,
    );
    let mut st = st;
    let mut i: usize = 0;
    while i < items.len()
        invariant
            i <= items.len(),
            format_items_spec(
                crate::sheet::items_view(items@),
                source@,
                crate::ast::comments_view(comments@),
                st@,
                i as int,
            ) == whole_run,
        decreases items.len() - i,
    {
        let item = &items[i];
        st = {
            let st = if i > 0 { write_text(st, "\n") } else { st };
            format_item(item, source, comments, st)
        };
        i += 1;
    }
    st
}

/// What [`format_uses`] computes from position `i` on.
pub open spec fn format_uses_spec(
    us: Seq<UseDeclView>,
    source: Seq<char>,
    comments: Seq<CommentView>,
    st: SheetView,
    i: int,
) -> SheetView
    decreases us.len() - i,
{
    if 0 <= i < us.len() {
        let u = us[i];
        let st = {
            let st = lead_in_spec(source, comments, (u.span.start as int), ""@, st);
            let st = crate::sheet::write_text_spec(
                st,
                "use \""@ + escape_string_spec(u.path) + "\";\n"@,
            );
            try_attach_trailing_spec(source, comments, (u.span.end as int), st)
        };
        format_uses_spec(us, source, comments, st, i + 1)
    } else {
        st
    }
}

/// Writes the imports.
pub fn format_uses(us: &Vec<UseDecl>, source: &str, comments: &[Comment], st: Sheet) -> (r: Sheet)
    ensures
        r@ == format_uses_spec(
            crate::ast::uses_view(us@),
            source@,
            crate::ast::comments_view(comments@),
            st@,
            0,
        ),
{
    let ghost whole_run = format_uses_spec(
        crate::ast::uses_view(us@),
        source@,
        crate::ast::comments_view(comments@),
        st@,
        0,
    );
    let mut st = st;
    let mut i: usize = 0;
    while i < us.len()
        invariant
            i <= us.len(),
            format_uses_spec(
                crate::ast::uses_view(us@),
                source@,
                crate::ast::comments_view(comments@),
                st@,
                i as int,
            ) == whole_run,
        decreases us.len() - i,
    {
        let u = &us[i];
        st = {
            let st = lead_in(source, comments, u.span.start, "", st);
            let st = write_text(st, &cat3("use \"", &escape_string(&u.path), "\";\n"));
            try_attach_trailing(source, comments, u.span.end, st)
        };
        i += 1;
    }
    st
}

/// What [`format_intents`] computes from position `i` on.
pub open spec fn format_intents_spec(
    ns: Seq<IntentDeclView>,
    source: Seq<char>,
    comments: Seq<CommentView>,
    st: SheetView,
    i: int,
) -> SheetView
    decreases ns.len() - i,
{
    if 0 <= i < ns.len() {
        let n = ns[i];
        let st = {
            let st = lead_in_spec(source, comments, (n.span.start as int), ""@, st);
            let st = crate::sheet::write_text_spec(
                st,
                "intent \""@ + escape_string_spec(n.text) + "\";\n"@,
            );
            try_attach_trailing_spec(source, comments, (n.span.end as int), st)
        };
        format_intents_spec(ns, source, comments, st, i + 1)
    } else {
        st
    }
}

/// Writes the intents.
pub fn format_intents(
    ns: &Vec<IntentDecl>,
    source: &str,
    comments: &[Comment],
    st: Sheet,
) -> (r: Sheet)
    ensures
        r@ == format_intents_spec(
            crate::ast::intents_view(ns@),
            source@,
            crate::ast::comments_view(comments@),
            st@,
            0,
        ),
{
    let ghost whole_run = format_intents_spec(
        crate::ast::intents_view(ns@),
        source@,
        crate::ast::comments_view(comments@),
        st@,
        0,
    );
    let mut st = st;
    let mut i: usize = 0;
    while i < ns.len()
        invariant
            i <= ns.len(),
            format_intents_spec(
                crate::ast::intents_view(ns@),
                source@,
                crate::ast::comments_view(comments@),
                st@,
                i as int,
            ) == whole_run,
        decreases ns.len() - i,
    {
        let n = &ns[i];
        st = {
            let st = lead_in(source, comments, n.span.start, "", st);
            let st = write_text(st, &cat3("intent \"", &escape_string(&n.text), "\";\n"));
            try_attach_trailing(source, comments, n.span.end, st)
        };
        i += 1;
    }
    st
}

/// What [`order_structs`] computes from position `i` on.
pub open spec fn order_structs_spec(
    ds: Seq<StructDeclView>,
    order: Seq<TopItemView>,
    i: int,
) -> Seq<TopItemView>
    decreases ds.len() - i,
{
    if 0 <= i < ds.len() {
        let d = ds[i];
        let order = crate::sheet::insert_item_spec(order, TopItemView::Struct(d));
        order_structs_spec(ds, order, i + 1)
    } else {
        order
    }
}

/// Places the structs by where they start.
pub fn order_structs(ds: &Vec<StructDecl>, order: Vec<TopItem>) -> (r: Vec<TopItem>)
    ensures
        crate::sheet::items_view(r@) == order_structs_spec(
            crate::ast::structs_view(ds@),
            crate::sheet::items_view(order@),
            0,
        ),
{
    let ghost whole_run = order_structs_spec(
        crate::ast::structs_view(ds@),
        crate::sheet::items_view(order@),
        0,
    );
    let mut order = order;
    let mut i: usize = 0;
    while i < ds.len()
        invariant
            i <= ds.len(),
            order_structs_spec(
                crate::ast::structs_view(ds@),
                crate::sheet::items_view(order@),
                i as int,
            ) == whole_run,
        decreases ds.len() - i,
    {
        let d = &ds[i];
        order = insert_item(order, TopItem::Struct(d.dup()));
        i += 1;
    }
    order
}

/// What [`order_enums`] computes from position `i` on.
pub open spec fn order_enums_spec(
    ds: Seq<EnumDeclView>,
    order: Seq<TopItemView>,
    i: int,
) -> Seq<TopItemView>
    decreases ds.len() - i,
{
    if 0 <= i < ds.len() {
        let d = ds[i];
        let order = crate::sheet::insert_item_spec(order, TopItemView::Enum(d));
        order_enums_spec(ds, order, i + 1)
    } else {
        order
    }
}

/// Places the enums by where they start.
pub fn order_enums(ds: &Vec<EnumDecl>, order: Vec<TopItem>) -> (r: Vec<TopItem>)
    ensures
        crate::sheet::items_view(r@) == order_enums_spec(
            crate::ast::enums_view(ds@),
            crate::sheet::items_view(order@),
            0,
        ),
{
    let ghost whole_run = order_enums_spec(
        crate::ast::enums_view(ds@),
        crate::sheet::items_view(order@),
        0,
    );
    let mut order = order;
    let mut i: usize = 0;
    while i < ds.len()
        invariant
            i <= ds.len(),
            order_enums_spec(
                crate::ast::enums_view(ds@),
                crate::sheet::items_view(order@),
                i as int,
            ) == whole_run,
        decreases ds.len() - i,
    {
        let d = &ds[i];
        order = insert_item(order, TopItem::Enum(d.dup()));
        i += 1;
    }
    order
}

/// What [`order_interfaces`] computes from position `i` on.
pub open spec fn order_interfaces_spec(
    ds: Seq<InterfaceDeclView>,
    order: Seq<TopItemView>,
    i: int,
) -> Seq<TopItemView>
    decreases ds.len() - i,
{
    if 0 <= i < ds.len() {
        let d = ds[i];
        let order = crate::sheet::insert_item_spec(order, TopItemView::Interface(d));
        order_interfaces_spec(ds, order, i + 1)
    } else {
        order
    }
}

/// Places the interfaces by where they start.
pub fn order_interfaces(ds: &Vec<InterfaceDecl>, order: Vec<TopItem>) -> (r: Vec<TopItem>)
    ensures
        crate::sheet::items_view(r@) == order_interfaces_spec(
            crate::ast::interfaces_view(ds@),
            crate::sheet::items_view(order@),
            0,
        ),
{
    let ghost whole_run = order_interfaces_spec(
        crate::ast::interfaces_view(ds@),
        crate::sheet::items_view(order@),
        0,
    );
    let mut order = order;
    let mut i: usize = 0;
    while i < ds.len()
        invariant
            i <= ds.len(),
            order_interfaces_spec(
                crate::ast::interfaces_view(ds@),
                crate::sheet::items_view(order@),
                i as int,
            ) == whole_run,
        decreases ds.len() - i,
    {
        let d = &ds[i];
        order = insert_item(order, TopItem::Interface(d.dup()));
        i += 1;
    }
    order
}

/// What [`order_impls`] computes from position `i` on.
pub open spec fn order_impls_spec(
    ds: Seq<ImplDeclView>,
    order: Seq<TopItemView>,
    i: int,
) -> Seq<TopItemView>
    decreases ds.len() - i,
{
    if 0 <= i < ds.len() {
        let d = ds[i];
        let order = crate::sheet::insert_item_spec(order, TopItemView::Impl(d));
        order_impls_spec(ds, order, i + 1)
    } else {
        order
    }
}

/// Places the implementations by where they start.
pub fn order_impls(ds: &Vec<ImplDecl>, order: Vec<TopItem>) -> (r: Vec<TopItem>)
    ensures
        crate::sheet::items_view(r@) == order_impls_spec(
            crate::ast::impls_view(ds@),
            crate::sheet::items_view(order@),
            0,
        ),
{
    let ghost whole_run = order_impls_spec(
        crate::ast::impls_view(ds@),
        crate::sheet::items_view(order@),
        0,
    );
    let mut order = order;
    let mut i: usize = 0;
    while i < ds.len()
        invariant
            i <= ds.len(),
            order_impls_spec(
                crate::ast::impls_view(ds@),
                crate::sheet::items_view(order@),
                i as int,
            ) == whole_run,
        decreases ds.len() - i,
    {
        let d = &ds[i];
        order = insert_item(order, TopItem::Impl(d.dup()));
        i += 1;
    }
    order
}

/// What [`order_consts`] computes from position `i` on.
pub open spec fn order_consts_spec(
    ds: Seq<ConstDeclView>,
    order: Seq<TopItemView>,
    i: int,
) -> Seq<TopItemView>
    decreases ds.len() - i,
{
    if 0 <= i < ds.len() {
        let d = ds[i];
        let order = crate::sheet::insert_item_spec(order, TopItemView::Const(d));
        order_consts_spec(ds, order, i + 1)
    } else {
        order
    }
}

/// Places the constants by where they start.
pub fn order_consts(ds: &Vec<ConstDecl>, order: Vec<TopItem>) -> (r: Vec<TopItem>)
    ensures
        crate::sheet::items_view(r@) == order_consts_spec(
            crate::ast::consts_view(ds@),
            crate::sheet::items_view(order@),
            0,
        ),
{
    let ghost whole_run = order_consts_spec(
        crate::ast::consts_view(ds@),
        crate::sheet::items_view(order@),
        0,
    );
    let mut order = order;
    let mut i: usize = 0;
    while i < ds.len()
        invariant
            i <= ds.len(),
            order_consts_spec(
                crate::ast::consts_view(ds@),
                crate::sheet::items_view(order@),
                i as int,
            ) == whole_run,
        decreases ds.len() - i,
    {
        let d = &ds[i];
        order = insert_item(order, TopItem::Const(d.dup()));
        i += 1;
    }
    order
}

/// What [`order_aliases`] computes from position `i` on.
pub open spec fn order_aliases_spec(
    ds: Seq<TypeAliasView>,
    order: Seq<TopItemView>,
    i: int,
) -> Seq<TopItemView>
    decreases ds.len() - i,
{
    if 0 <= i < ds.len() {
        let d = ds[i];
        let order = crate::sheet::insert_item_spec(order, TopItemView::Alias(d));
        order_aliases_spec(ds, order, i + 1)
    } else {
        order
    }
}

/// Places the type aliases by where they start.
pub fn order_aliases(ds: &Vec<TypeAlias>, order: Vec<TopItem>) -> (r: Vec<TopItem>)
    ensures
        crate::sheet::items_view(r@) == order_aliases_spec(
            crate::ast::type_aliases_view(ds@),
            crate::sheet::items_view(order@),
            0,
        ),
{
    let ghost whole_run = order_aliases_spec(
        crate::ast::type_aliases_view(ds@),
        crate::sheet::items_view(order@),
        0,
    );
    let mut order = order;
    let mut i: usize = 0;
    while i < ds.len()
        invariant
            i <= ds.len(),
            order_aliases_spec(
                crate::ast::type_aliases_view(ds@),
                crate::sheet::items_view(order@),
                i as int,
            ) == whole_run,
        decreases ds.len() - i,
    {
        let d = &ds[i];
        order = insert_item(order, TopItem::Alias(d.dup()));
        i += 1;
    }
    order
}

/// What [`order_methods`] computes from position `i` on.
pub open spec fn order_methods_spec(
    ds: Seq<MethodsBlockView>,
    order: Seq<TopItemView>,
    i: int,
) -> Seq<TopItemView>
    decreases ds.len() - i,
{
    if 0 <= i < ds.len() {
        let d = ds[i];
        let order = crate::sheet::insert_item_spec(order, TopItemView::Methods(d));
        order_methods_spec(ds, order, i + 1)
    } else {
        order
    }
}

/// Places the methods blocks by where they start.
pub fn order_methods(ds: &Vec<MethodsBlock>, order: Vec<TopItem>) -> (r: Vec<TopItem>)
    ensures
        crate::sheet::items_view(r@) == order_methods_spec(
            crate::ast::methods_blocks_view(ds@),
            crate::sheet::items_view(order@),
            0,
        ),
{
    let ghost whole_run = order_methods_spec(
        crate::ast::methods_blocks_view(ds@),
        crate::sheet::items_view(order@),
        0,
    );
    let mut order = order;
    let mut i: usize = 0;
    while i < ds.len()
        invariant
            i <= ds.len(),
            order_methods_spec(
                crate::ast::methods_blocks_view(ds@),
                crate::sheet::items_view(order@),
                i as int,
            ) == whole_run,
        decreases ds.len() - i,
    {
        let d = &ds[i];
        order = insert_item(order, TopItem::Methods(d.dup()));
        i += 1;
    }
    order
}

/// What [`order_functions`] computes from position `i` on.
pub open spec fn order_functions_spec(
    ds: Seq<FunctionView>,
    order: Seq<TopItemView>,
    i: int,
) -> Seq<TopItemView>
    decreases ds.len() - i,
{
    if 0 <= i < ds.len() {
        let d = ds[i];
        let order = crate::sheet::insert_item_spec(order, TopItemView::Function(d));
        order_functions_spec(ds, order, i + 1)
    } else {
        order
    }
}

/// Places the functions by where they start.
pub fn order_functions(ds: &Vec<Function>, order: Vec<TopItem>) -> (r: Vec<TopItem>)
    ensures
        crate::sheet::items_view(r@) == order_functions_spec(
            crate::ast::functions_view(ds@),
            crate::sheet::items_view(order@),
            0,
        ),
{
    let ghost whole_run = order_functions_spec(
        crate::ast::functions_view(ds@),
        crate::sheet::items_view(order@),
        0,
    );
    let mut order = order;
    let mut i: usize = 0;
    while i < ds.len()
        invariant
            i <= ds.len(),
            order_functions_spec(
                crate::ast::functions_view(ds@),
                crate::sheet::items_view(order@),
                i as int,
            ) == whole_run,
        decreases ds.len() - i,
    {
        let d = &ds[i];
        order = insert_item(order, TopItem::Function(d.dup()));
        i += 1;
    }
    order
}

/// What [`items_in_order`] computes.
pub open spec fn items_in_order_spec(p: ProgramView) -> Seq<TopItemView>
{
    let order = order_structs_spec(p.structs, Seq::empty(), 0);
    let order = order_enums_spec(p.enums, order, 0);
    let order = order_interfaces_spec(p.interfaces, order, 0);
    let order = order_impls_spec(p.impls, order, 0);
    let order = order_consts_spec(p.consts, order, 0);
    let order = order_aliases_spec(p.type_aliases, order, 0);
    let order = order_methods_spec(p.methods_blocks, order, 0);
    order_functions_spec(p.functions, order, 0)
}

/// The declarations of a program by where they start; those that start
/// together stay in the order of their kinds and of their lists.
pub fn items_in_order(p: &Program) -> (r: Vec<TopItem>)
    ensures
        crate::sheet::items_view(r@) == items_in_order_spec(p@),
{
    let order = order_structs(&p.structs, Vec::new());
    let order = order_enums(&p.enums, order);
    let order = order_interfaces(&p.interfaces, order);
    let order = order_impls(&p.impls, order);
    let order = order_consts(&p.consts, order);
    let order = order_aliases(&p.type_aliases, order);
    let order = order_methods(&p.methods_blocks, order);
    order_functions(&p.functions, order)
}

/// What [`format_program`] computes.
pub open spec fn format_program_spec(p: ProgramView) -> Seq<char>
{
    let none: Seq<CommentView> = Seq::empty();
    format_program_with_comments_spec(p, ""@, none)
}

/// The program as source text, without comments.
pub fn format_program(p: &Program) -> (r: String)
    ensures
        r@ == format_program_spec(p@),
{
    let none: Vec<Comment> = Vec::new();
    format_program_with_comments(p, "", none.as_slice())
}

/// What [`format_program_with_comments`] computes.
pub open spec fn format_program_with_comments_spec(
    p: ProgramView,
    source: Seq<char>,
    comments: Seq<CommentView>,
) -> Seq<char>
{
    let st = SheetView { out: Seq::empty(), cursor: 0 };
    let st = format_uses_spec(p.uses, source, comments, st, 0);
    let st = if p.uses.len() > 0 { crate::sheet::write_text_spec(st, "\n"@) } else { st };
    let st = format_intents_spec(p.intents, source, comments, st, 0);
    let st = if p.intents.len() > 0 { crate::sheet::write_text_spec(st, "\n"@) } else { st };
    let st = format_items_spec(items_in_order_spec(p), source, comments, st, 0);
    let st = drain_remaining_spec(source, comments, st);
    st.out
}

/// The program as source text with its comments in their places. Where each
/// comment stands on one line, all of them are there, once and in the order of
/// the source, and around them stands what [`format_program`] writes, up to
/// white space.
pub fn format_program_with_comments(p: &Program, source: &str, comments: &[Comment]) -> (r: String)
    ensures
        r@ == format_program_with_comments_spec(p@, source@, crate::ast::comments_view(comments@)),
        crate::sheet::on_one_line(crate::ast::comments_view(comments@)) ==> crate::sheet::woven(
            r@,
            crate::sheet::ink(format_program_spec(p@)),
            crate::sheet::texts_between(
                crate::ast::comments_view(comments@),
                0,
                comments.len() as int,
            ),
        ),
{
    let st = Sheet { out: Vec::new(), cursor: 0 };
    let st = format_uses(&p.uses, source, comments, st);
    let st = if p.uses.len() > 0 { write_text(st, "\n") } else { st };
    let st = format_intents(&p.intents, source, comments, st);
    let st = if p.intents.len() > 0 { write_text(st, "\n") } else { st };
    let st = format_items(&items_in_order(p), source, comments, st);
    let st = drain_remaining(source, comments, st);
    proof {
        if crate::sheet::on_one_line(crate::ast::comments_view(comments@)) {
            comments_are_woven_in(p@, source@, crate::ast::comments_view(comments@));
        }
    }
    text_of(&st.out)
}

/// The declarations of a program, kind by kind.
pub open spec fn declared_items(p: ProgramView) -> Seq<TopItemView> {
    p.structs.map_values(|d: StructDeclView| TopItemView::Struct(d))
        + p.enums.map_values(|d: EnumDeclView| TopItemView::Enum(d))
        + p.interfaces.map_values(|d: InterfaceDeclView| TopItemView::Interface(d))
        + p.impls.map_values(|d: ImplDeclView| TopItemView::Impl(d))
        + p.consts.map_values(|d: ConstDeclView| TopItemView::Const(d))
        + p.type_aliases.map_values(|d: TypeAliasView| TopItemView::Alias(d))
        + p.methods_blocks.map_values(|d: MethodsBlockView| TopItemView::Methods(d))
        + p.functions.map_values(|d: FunctionView| TopItemView::Function(d))
}

/// Each item starts no later than the ones behind it.
pub open spec fn starts_in_order(items: Seq<TopItemView>) -> bool {
    forall|i: int, j: int|
        0 <= i <= j < items.len()
            ==> crate::sheet::item_start_spec(#[trigger] items[i]) <= crate::sheet::item_start_spec(
            #[trigger] items[j],
        )
}

proof fn before_and_after(v: Seq<TopItemView>, start: int)
    requires
        starts_in_order(v),
    ensures
        0 <= crate::sheet::not_after(v, start) <= v.len(),
        forall|i: int| 0 <= i < crate::sheet::not_after(
            v,
            start,
        ) ==> crate::sheet::item_start_spec(#[trigger] v[i]) <= start,
        forall|i: int|
            crate::sheet::not_after(v, start) <= i < v.len()
                ==> crate::sheet::item_start_spec(#[trigger] v[i]) > start,
    decreases v.len(),
{
    if v.len() > 0 {
        let rest = v.subrange(1, v.len() as int);
        if crate::sheet::item_start_spec(v[0]) <= start {
            assert forall|i: int, j: int| 0 <= i <= j < rest.len() implies crate::sheet::item_start_spec(
                #[trigger] rest[i],
            ) <= crate::sheet::item_start_spec(#[trigger] rest[j]) by {
                assert(rest[i] == v[i + 1] && rest[j] == v[j + 1]);
            }
            before_and_after(rest, start);
            assert forall|i: int| 0 <= i < crate::sheet::not_after(
                v,
                start,
            ) implies crate::sheet::item_start_spec(
                #[trigger] v[i],
            ) <= start by {
                if i > 0 {
                    assert(rest[i - 1] == v[i]);
                }
            }
            assert forall|i: int| crate::sheet::not_after(
                v,
                start,
            ) <= i < v.len() implies crate::sheet::item_start_spec(
                #[trigger] v[i],
            ) > start by {
                assert(rest[i - 1] == v[i]);
            }
        }
    }
}

proof fn inserted_in_order(v: Seq<TopItemView>, x: TopItemView)
    requires
        starts_in_order(v),
    ensures
        starts_in_order(crate::sheet::insert_item_spec(v, x)),
        crate::sheet::insert_item_spec(v, x).to_multiset() == v.to_multiset().insert(x),
{
    broadcast use vstd::seq_lib::group_to_multiset_ensures;

    before_and_after(v, crate::sheet::item_start_spec(x));
    let k = crate::sheet::not_after(v, crate::sheet::item_start_spec(x));
    let r = v.insert(k, x);
    assert forall|i: int, j: int| 0 <= i <= j < r.len() implies crate::sheet::item_start_spec(#[trigger] r[i])
        <= crate::sheet::item_start_spec(#[trigger] r[j]) by {
        if i < k {
            assert(r[i] == v[i]);
        } else if i > k {
            assert(r[i] == v[i - 1]);
        }
        if j < k {
            assert(r[j] == v[j]);
        } else if j > k {
            assert(r[j] == v[j - 1]);
        }
    }
    assert(r.remove(k) =~= v);
    assert(r[k] == x);
    assert(r.to_multiset().count(x) > 0);
    assert(r.to_multiset() =~= v.to_multiset().insert(x));
}

/// `order` with the items of a list put in, from the one at `i` on.
spec fn all_inserted(order: Seq<TopItemView>, xs: Seq<TopItemView>, i: int) -> Seq<TopItemView>
    decreases xs.len() - i,
{
    if 0 <= i < xs.len() {
        all_inserted(crate::sheet::insert_item_spec(order, xs[i]), xs, i + 1)
    } else {
        order
    }
}

proof fn all_inserted_in_order(order: Seq<TopItemView>, xs: Seq<TopItemView>, i: int)
    requires
        starts_in_order(order),
        0 <= i <= xs.len(),
    ensures
        starts_in_order(all_inserted(order, xs, i)),
        all_inserted(order, xs, i).to_multiset() == order.to_multiset().add(
            xs.subrange(i, xs.len() as int).to_multiset(),
        ),
    decreases xs.len() - i,
{
    broadcast use vstd::seq_lib::group_to_multiset_ensures;

    let rest = xs.subrange(i, xs.len() as int);
    if i < xs.len() {
        inserted_in_order(order, xs[i]);
        all_inserted_in_order(crate::sheet::insert_item_spec(order, xs[i]), xs, i + 1);
        let after = xs.subrange(i + 1, xs.len() as int);
        assert(rest.remove(0) =~= after);
        assert(rest[0] == xs[i]);
        assert(rest.to_multiset().count(xs[i]) > 0);
        assert(rest.to_multiset() =~= after.to_multiset().insert(xs[i]));
        assert(order.to_multiset().insert(xs[i]).add(after.to_multiset())
            =~= order.to_multiset().add(rest.to_multiset()));
    } else {
        assert(rest =~= Seq::empty());
        assert(order.to_multiset().add(rest.to_multiset()) =~= order.to_multiset());
    }
}

proof fn inserted_in_turn(
    order: Seq<TopItemView>,
    xs: Seq<TopItemView>,
    ys: Seq<TopItemView>,
    i: int,
)
    requires
        0 <= i <= xs.len(),
    ensures
        all_inserted(order, xs + ys, i) == all_inserted(all_inserted(order, xs, i), ys, 0),
    decreases xs.len() - i,
{
    if i < xs.len() {
        assert((xs + ys)[i] == xs[i]);
        inserted_in_turn(crate::sheet::insert_item_spec(order, xs[i]), xs, ys, i + 1);
    } else {
        inserted_behind(order, xs, ys, 0);
    }
}

proof fn inserted_behind(
    order: Seq<TopItemView>,
    xs: Seq<TopItemView>,
    ys: Seq<TopItemView>,
    i: int,
)
    requires
        0 <= i <= ys.len(),
    ensures
        all_inserted(order, xs + ys, xs.len() + i) == all_inserted(order, ys, i),
    decreases ys.len() - i,
{
    if i < ys.len() {
        assert((xs + ys)[xs.len() + i] == ys[i]);
        inserted_behind(crate::sheet::insert_item_spec(order, ys[i]), xs, ys, i + 1);
    }
}

proof fn structs_inserted(ds: Seq<StructDeclView>, order: Seq<TopItemView>, i: int)
    requires
        0 <= i <= ds.len(),
    ensures
        order_structs_spec(ds, order, i) == all_inserted(
            order,
            ds.map_values(|d: StructDeclView| TopItemView::Struct(d)),
            i,
        ),
    decreases ds.len() - i,
{
    if i < ds.len() {
        structs_inserted(
            ds,
            crate::sheet::insert_item_spec(order, TopItemView::Struct(ds[i])),
            i + 1,
        );
    }
}

proof fn enums_inserted(ds: Seq<EnumDeclView>, order: Seq<TopItemView>, i: int)
    requires
        0 <= i <= ds.len(),
    ensures
        order_enums_spec(ds, order, i) == all_inserted(
            order,
            ds.map_values(|d: EnumDeclView| TopItemView::Enum(d)),
            i,
        ),
    decreases ds.len() - i,
{
    if i < ds.len() {
        enums_inserted(ds, crate::sheet::insert_item_spec(order, TopItemView::Enum(ds[i])), i + 1);
    }
}

proof fn interfaces_inserted(ds: Seq<InterfaceDeclView>, order: Seq<TopItemView>, i: int)
    requires
        0 <= i <= ds.len(),
    ensures
        order_interfaces_spec(ds, order, i) == all_inserted(
            order,
            ds.map_values(|d: InterfaceDeclView| TopItemView::Interface(d)),
            i,
        ),
    decreases ds.len() - i,
{
    if i < ds.len() {
        interfaces_inserted(
            ds,
            crate::sheet::insert_item_spec(order, TopItemView::Interface(ds[i])),
            i + 1,
        );
    }
}

proof fn impls_inserted(ds: Seq<ImplDeclView>, order: Seq<TopItemView>, i: int)
    requires
        0 <= i <= ds.len(),
    ensures
        order_impls_spec(ds, order, i) == all_inserted(
            order,
            ds.map_values(|d: ImplDeclView| TopItemView::Impl(d)),
            i,
        ),
    decreases ds.len() - i,
{
    if i < ds.len() {
        impls_inserted(ds, crate::sheet::insert_item_spec(order, TopItemView::Impl(ds[i])), i + 1);
    }
}

proof fn consts_inserted(ds: Seq<ConstDeclView>, order: Seq<TopItemView>, i: int)
    requires
        0 <= i <= ds.len(),
    ensures
        order_consts_spec(ds, order, i) == all_inserted(
            order,
            ds.map_values(|d: ConstDeclView| TopItemView::Const(d)),
            i,
        ),
    decreases ds.len() - i,
{
    if i < ds.len() {
        consts_inserted(
            ds,
            crate::sheet::insert_item_spec(order, TopItemView::Const(ds[i])),
            i + 1,
        );
    }
}

proof fn aliases_inserted(ds: Seq<TypeAliasView>, order: Seq<TopItemView>, i: int)
    requires
        0 <= i <= ds.len(),
    ensures
        order_aliases_spec(ds, order, i) == all_inserted(
            order,
            ds.map_values(|d: TypeAliasView| TopItemView::Alias(d)),
            i,
        ),
    decreases ds.len() - i,
{
    if i < ds.len() {
        aliases_inserted(
            ds,
            crate::sheet::insert_item_spec(order, TopItemView::Alias(ds[i])),
            i + 1,
        );
    }
}

proof fn methods_inserted(ds: Seq<MethodsBlockView>, order: Seq<TopItemView>, i: int)
    requires
        0 <= i <= ds.len(),
    ensures
        order_methods_spec(ds, order, i) == all_inserted(
            order,
            ds.map_values(|d: MethodsBlockView| TopItemView::Methods(d)),
            i,
        ),
    decreases ds.len() - i,
{
    if i < ds.len() {
        methods_inserted(
            ds,
            crate::sheet::insert_item_spec(order, TopItemView::Methods(ds[i])),
            i + 1,
        );
    }
}

proof fn functions_inserted(ds: Seq<FunctionView>, order: Seq<TopItemView>, i: int)
    requires
        0 <= i <= ds.len(),
    ensures
        order_functions_spec(ds, order, i) == all_inserted(
            order,
            ds.map_values(|d: FunctionView| TopItemView::Function(d)),
            i,
        ),
    decreases ds.len() - i,
{
    if i < ds.len() {
        functions_inserted(
            ds,
            crate::sheet::insert_item_spec(order, TopItemView::Function(ds[i])),
            i + 1,
        );
    }
}

/// The declarations of a program are written in the order in which they start,
/// each of them once.
pub proof fn items_are_in_source_order(p: ProgramView)
    ensures
        starts_in_order(items_in_order_spec(p)),
        items_in_order_spec(p).to_multiset() == declared_items(p).to_multiset(),
{
    let none = Seq::<TopItemView>::empty();
    let structs = p.structs.map_values(|d: StructDeclView| TopItemView::Struct(d));
    let enums = p.enums.map_values(|d: EnumDeclView| TopItemView::Enum(d));
    let interfaces = p.interfaces.map_values(|d: InterfaceDeclView| TopItemView::Interface(d));
    let impls = p.impls.map_values(|d: ImplDeclView| TopItemView::Impl(d));
    let consts = p.consts.map_values(|d: ConstDeclView| TopItemView::Const(d));
    let aliases = p.type_aliases.map_values(|d: TypeAliasView| TopItemView::Alias(d));
    let methods = p.methods_blocks.map_values(|d: MethodsBlockView| TopItemView::Methods(d));
    let functions = p.functions.map_values(|d: FunctionView| TopItemView::Function(d));
    structs_inserted(p.structs, none, 0);
    let order1 = order_structs_spec(p.structs, none, 0);
    enums_inserted(p.enums, order1, 0);
    inserted_in_turn(none, structs, enums, 0);
    let order2 = order_enums_spec(p.enums, order1, 0);
    interfaces_inserted(p.interfaces, order2, 0);
    inserted_in_turn(none, structs + enums, interfaces, 0);
    let order3 = order_interfaces_spec(p.interfaces, order2, 0);
    impls_inserted(p.impls, order3, 0);
    inserted_in_turn(none, structs + enums + interfaces, impls, 0);
    let order4 = order_impls_spec(p.impls, order3, 0);
    consts_inserted(p.consts, order4, 0);
    inserted_in_turn(none, structs + enums + interfaces + impls, consts, 0);
    let order5 = order_consts_spec(p.consts, order4, 0);
    aliases_inserted(p.type_aliases, order5, 0);
    inserted_in_turn(none, structs + enums + interfaces + impls + consts, aliases, 0);
    let order6 = order_aliases_spec(p.type_aliases, order5, 0);
    methods_inserted(p.methods_blocks, order6, 0);
    inserted_in_turn(none, structs + enums + interfaces + impls + consts + aliases, methods, 0);
    let order7 = order_methods_spec(p.methods_blocks, order6, 0);
    functions_inserted(p.functions, order7, 0);
    inserted_in_turn(
        none,
        structs + enums + interfaces + impls + consts + aliases + methods,
        functions,
        0,
    );
    let order8 = order_functions_spec(p.functions, order7, 0);
    let xs = declared_items(p);
    all_inserted_in_order(none, xs, 0);
    assert(xs.subrange(0, xs.len() as int) =~= xs);
    broadcast use vstd::seq_lib::group_to_multiset_ensures;

    assert(none.to_multiset().add(xs.to_multiset()) =~= xs.to_multiset());
}

/// Without comments a program is written as [`format_program`] writes it.
pub proof fn no_comments_change_nothing(p: ProgramView)
    ensures
        format_program_spec(p) == format_program_with_comments_spec(p, ""@, Seq::empty()),
{
}

/// How a character is written in a string literal.
pub open spec fn escaped_char(c: char) -> Seq<char> {
    if c == '\\' {
        "\\\\"@
    } else if c == '"' {
        "\\\""@
    } else if c == '\n' {
        "\\n"@
    } else if c == '\t' {
        "\\t"@
    } else if c == '\r' {
        "\\r"@
    } else if c == '\0' {
        "\\0"@
    } else {
        seq![c]
    }
}

/// How the characters of a text from position `i` on are written.
spec fn escaped_from(cs: Seq<char>, i: int) -> Seq<char>
    decreases cs.len() - i,
{
    if 0 <= i < cs.len() {
        escaped_char(cs[i]) + escaped_from(cs, i + 1)
    } else {
        Seq::empty()
    }
}

/// What the character behind a backslash stands for.
pub open spec fn escape_meaning(c: char) -> char {
    if c == 'n' {
        '\n'
    } else if c == 't' {
        '\t'
    } else if c == 'r' {
        '\r'
    } else if c == '0' {
        '\0'
    } else {
        c
    }
}

/// The text that the inside of a string literal stands for.
pub open spec fn unescaped(s: Seq<char>) -> Seq<char>
    decreases s.len(),
{
    if s.len() == 0 {
        Seq::empty()
    } else if s[0] == '\\' && s.len() > 1 {
        seq![escape_meaning(s[1])] + unescaped(s.subrange(2, s.len() as int))
    } else {
        seq![s[0]] + unescaped(s.subrange(1, s.len() as int))
    }
}

/// Whether no quote stands in the inside of a string literal without a
/// backslash in front of it, which would end the literal.
pub open spec fn no_open_quote(s: Seq<char>) -> bool
    decreases s.len(),
{
    if s.len() == 0 {
        true
    } else if s[0] == '\\' && s.len() > 1 {
        no_open_quote(s.subrange(2, s.len() as int))
    } else {
        s[0] != '"' && s[0] != '\\' && no_open_quote(s.subrange(1, s.len() as int))
    }
}

proof fn escaped_one_by_one(cs: Seq<char>, out: Seq<char>, i: int)
    requires
        0 <= i <= cs.len(),
    ensures
        escape_chars_spec(cs, out, i) == out + escaped_from(cs, i),
    decreases cs.len() - i,
{
    if i < cs.len() {
        let one = escaped_char(cs[i]);
        escaped_one_by_one(cs, out + one, i + 1);
        assert(out.push(cs[i]) =~= out + seq![cs[i]]);
        assert(out + one + escaped_from(cs, i + 1) =~= out + (one + escaped_from(cs, i + 1)));
    } else {
        assert(out + Seq::<char>::empty() =~= out);
    }
}

proof fn escaped_reads_back(cs: Seq<char>, i: int)
    requires
        0 <= i <= cs.len(),
    ensures
        unescaped(escaped_from(cs, i)) == cs.subrange(i, cs.len() as int),
        no_open_quote(escaped_from(cs, i)),
        crate::diagnostic::unbroken(escaped_from(cs, i)),
    decreases cs.len() - i,
{
    let s = escaped_from(cs, i);
    if i < cs.len() {
        reveal_strlit("\\\\");
        reveal_strlit("\\\"");
        reveal_strlit("\\n");
        reveal_strlit("\\t");
        reveal_strlit("\\r");
        reveal_strlit("\\0");
        escaped_reads_back(cs, i + 1);
        let one = escaped_char(cs[i]);
        let rest = escaped_from(cs, i + 1);
        assert(s.subrange(one.len() as int, s.len() as int) =~= rest);
        assert(
            cs.subrange(i, cs.len() as int) =~= seq![cs[i]] + cs.subrange(i + 1, cs.len() as int)
        );
        assert(forall|k: int| 0 <= k < one.len() ==> s[k] == one[k]);
    } else {
        assert(cs.subrange(i, cs.len() as int) =~= Seq::empty());
    }
}

/// A text written as a string literal stands on one line, does not end before
/// its closing quote, and reads back as the text.
pub proof fn written_string_reads_back(s: Seq<char>)
    ensures
        unescaped(escape_string_spec(s)) == s,
        no_open_quote(escape_string_spec(s)),
        crate::diagnostic::unbroken(escape_string_spec(s)),
{
    escaped_one_by_one(s, Seq::empty(), 0);
    escaped_reads_back(s, 0);
    assert(Seq::<char>::empty() + escaped_from(s, 0) =~= escaped_from(s, 0));
    assert(s.subrange(0, s.len() as int) =~= s);
}

/// No source has no blank lines.
proof fn no_blank_lines(pos: int)
    ensures
        !crate::sheet::has_blank_line_before_spec(""@, pos),
{
    reveal_strlit("");
    assert(""@ =~= Seq::<char>::empty());
    reveal_with_fuel(vstd::utf8::encode_utf8, 1);
    assert(vstd::utf8::encode_utf8(""@).len() == 0);
}

/// Without comments nothing is written in front of a node.
proof fn no_lead_in(pos: int, pad: Seq<char>, b: SheetView)
    requires
        0 <= b.cursor,
    ensures
        lead_in_spec(""@, Seq::empty(), pos, pad, b) == b,
        drain_to_spec(""@, Seq::empty(), pos, pad, b) == b,
        try_attach_trailing_spec(""@, Seq::empty(), pos, b) == b,
{
    no_blank_lines(pos);
}

proof fn blank_is_woven(
    source: Seq<char>,
    pos: int,
    inner: bool,
    a: SheetView,
    b: SheetView,
    comments: Seq<CommentView>,
    from: int,
)
    requires
        crate::sheet::weaves(a, b, comments, from),
    ensures
        crate::sheet::weaves(maybe_preserve_blank_spec(source, pos, inner, a), b, comments, from),
        maybe_preserve_blank_spec(source, pos, inner, a).cursor == a.cursor,
{
    crate::sheet::blanks_have_no_ink();
    crate::sheet::weaves_blank(a, b, "\n"@, comments, from);
}

proof fn drained_is_woven(
    source: Seq<char>,
    comments: Seq<CommentView>,
    pos: int,
    pad: Seq<char>,
    a: SheetView,
    b: SheetView,
    from: int,
)
    requires
        crate::sheet::weaves(a, b, comments, from),
        crate::sheet::ink(pad).len() == 0,
    ensures
        crate::sheet::weaves(drain_to_spec(source, comments, pos, pad, a), b, comments, from),
        drain_to_spec(""@, Seq::empty(), pos, pad, b) == b,
    decreases comments.len() - a.cursor,
{
    reveal(crate::sheet::weaves);
    no_lead_in(pos, pad, b);
    if a.cursor < comments.len() && comments[a.cursor].span.start < pos {
        let start = comments[a.cursor].span.start as int;
        let blank = maybe_preserve_blank_spec(source, start, true, a);
        blank_is_woven(source, start, true, a, b, comments, from);
        crate::sheet::blanks_have_no_ink();
        crate::sheet::weaves_placed(blank, b, pad, "\n"@, comments, from);
        drained_is_woven(
            source,
            comments,
            pos,
            pad,
            place_comment_spec(pad, comments, blank),
            b,
            from,
        );
    }
}

proof fn rest_is_woven(
    source: Seq<char>,
    comments: Seq<CommentView>,
    a: SheetView,
    b: SheetView,
    from: int,
)
    requires
        crate::sheet::weaves(a, b, comments, from),
    ensures
        crate::sheet::weaves(drain_remaining_spec(source, comments, a), b, comments, from),
        drain_remaining_spec(source, comments, a).cursor == comments.len(),
        drain_remaining_spec(""@, Seq::empty(), b) == b,
    decreases comments.len() - a.cursor,
{
    reveal(crate::sheet::weaves);
    if a.cursor < comments.len() {
        let start = comments[a.cursor].span.start as int;
        let blank = maybe_preserve_blank_spec(source, start, false, a);
        blank_is_woven(source, start, false, a, b, comments, from);
        crate::sheet::blanks_have_no_ink();
        crate::sheet::weaves_placed(blank, b, ""@, "\n"@, comments, from);
        rest_is_woven(source, comments, place_comment_spec(""@, comments, blank), b, from);
    }
}

proof fn lead_in_is_woven(
    source: Seq<char>,
    comments: Seq<CommentView>,
    pos: int,
    pad: Seq<char>,
    a: SheetView,
    b: SheetView,
    from: int,
)
    requires
        crate::sheet::weaves(a, b, comments, from),
        crate::sheet::ink(pad).len() == 0,
    ensures
        crate::sheet::weaves(lead_in_spec(source, comments, pos, pad, a), b, comments, from),
        lead_in_spec(""@, Seq::empty(), pos, pad, b) == b,
{
    drained_is_woven(source, comments, pos, pad, a, b, from);
    let drained = drain_to_spec(source, comments, pos, pad, a);
    blank_is_woven(source, pos, true, drained, b, comments, from);
    no_blank_lines(pos);
}

proof fn trailing_is_woven(
    source: Seq<char>,
    comments: Seq<CommentView>,
    pos: int,
    a: SheetView,
    b: SheetView,
    from: int,
)
    requires
        crate::sheet::weaves(a, b, comments, from),
    ensures
        crate::sheet::weaves(try_attach_trailing_spec(source, comments, pos, a), b, comments, from),
        try_attach_trailing_spec(""@, Seq::empty(), pos, b) == b,
{
    reveal(crate::sheet::weaves);
    no_lead_in(pos, ""@, b);
    if next_comment_same_line_as_spec(source, comments, pos, a.cursor) {
        let joined = if ends_line_spec(a.out) {
            unbreak_spec(a)
        } else {
            a
        };
        if ends_line_spec(a.out) {
            crate::sheet::weaves_unbroken(a, b, comments, from);
        }
        crate::sheet::blanks_have_no_ink();
        crate::sheet::weaves_placed(joined, b, "  "@, "\n"@, comments, from);
    }
}

proof fn block_is_woven(
    ss: Seq<StmtView>,
    pad: Seq<char>,
    end: int,
    source: Seq<char>,
    comments: Seq<CommentView>,
    a: SheetView,
    b: SheetView,
    from: int,
)
    requires
        crate::sheet::weaves(a, b, comments, from),
        crate::sheet::ink(pad).len() == 0,
    ensures
        crate::sheet::weaves(
            format_block_spec(ss, pad, end, source, comments, a),
            format_block_spec(ss, pad, end, ""@, Seq::empty(), b),
            comments,
            from,
        ),
    decreases ss, ss.len() + 1,
{
    let inner = pad + "  "@;
    crate::sheet::blanks_have_no_ink();
    crate::sheet::ink_joined(pad, "  "@);
    stmts_are_woven(ss, inner, source, comments, a, b, from, 0);
    let c = format_stmts_spec(ss, inner, source, comments, a, 0);
    let d = format_stmts_spec(ss, inner, ""@, Seq::empty(), b, 0);
    drained_is_woven(source, comments, end, inner, c, d, from);
}

proof fn stmts_are_woven(
    ss: Seq<StmtView>,
    pad: Seq<char>,
    source: Seq<char>,
    comments: Seq<CommentView>,
    a: SheetView,
    b: SheetView,
    from: int,
    i: int,
)
    requires
        crate::sheet::weaves(a, b, comments, from),
        crate::sheet::ink(pad).len() == 0,
        0 <= i,
    ensures
        crate::sheet::weaves(
            format_stmts_spec(ss, pad, source, comments, a, i),
            format_stmts_spec(ss, pad, ""@, Seq::empty(), b, i),
            comments,
            from,
        ),
    decreases ss, ss.len() - i,
{
    if i < ss.len() {
        stmt_is_woven(ss[i], pad, source, comments, a, b, from);
        let c = format_stmt_spec(ss[i], pad, source, comments, a);
        let d = format_stmt_spec(ss[i], pad, ""@, Seq::empty(), b);
        stmts_are_woven(ss, pad, source, comments, c, d, from, i + 1);
    }
}

/// A block between the line in front of it and its closing brace.
proof fn framed_is_woven(
    head: Seq<char>,
    ss: Seq<StmtView>,
    pad: Seq<char>,
    end: int,
    source: Seq<char>,
    comments: Seq<CommentView>,
    a: SheetView,
    b: SheetView,
    from: int,
)
    requires
        crate::sheet::weaves(a, b, comments, from),
        crate::sheet::ink(pad).len() == 0,
    ensures
        crate::sheet::weaves(
            crate::sheet::write_text_spec(
                format_block_spec(
                    ss,
                    pad,
                    end,
                    source,
                    comments,
                    crate::sheet::write_text_spec(a, head),
                ),
                pad + "}\n"@,
            ),
            crate::sheet::write_text_spec(
                format_block_spec(
                    ss,
                    pad,
                    end,
                    ""@,
                    Seq::empty(),
                    crate::sheet::write_text_spec(b, head),
                ),
                pad + "}\n"@,
            ),
            comments,
            from,
        ),
    decreases ss, ss.len() + 2,
{
    broadcast use crate::sheet::weaves_written;

    let c = crate::sheet::write_text_spec(a, head);
    let d = crate::sheet::write_text_spec(b, head);
    assert(crate::sheet::weaves(c, d, comments, from));
    block_is_woven(ss, pad, end, source, comments, c, d, from);
}

proof fn stmt_is_woven(
    s: StmtView,
    pad: Seq<char>,
    source: Seq<char>,
    comments: Seq<CommentView>,
    a: SheetView,
    b: SheetView,
    from: int,
)
    requires
        crate::sheet::weaves(a, b, comments, from),
        crate::sheet::ink(pad).len() == 0,
    ensures
        crate::sheet::weaves(
            format_stmt_spec(s, pad, source, comments, a),
            format_stmt_spec(s, pad, ""@, Seq::empty(), b),
            comments,
            from,
        ),
    decreases s, 1int,
{
    let start = crate::ast::stmt_span_spec(s).start as int;
    lead_in_is_woven(source, comments, start, pad, a, b, from);
    let c = lead_in_spec(source, comments, start, pad, a);
    stmt_alone_is_woven(s, pad, source, comments, c, b, from);
    let d = format_stmt_alone_spec(s, pad, source, comments, c);
    let e = format_stmt_alone_spec(s, pad, ""@, Seq::empty(), b);
    trailing_is_woven(source, comments, crate::ast::stmt_span_spec(s).end as int, d, e, from);
}

proof fn stmt_alone_is_woven(
    s: StmtView,
    pad: Seq<char>,
    source: Seq<char>,
    comments: Seq<CommentView>,
    a: SheetView,
    b: SheetView,
    from: int,
)
    requires
        crate::sheet::weaves(a, b, comments, from),
        crate::sheet::ink(pad).len() == 0,
    ensures
        crate::sheet::weaves(
            format_stmt_alone_spec(s, pad, source, comments, a),
            format_stmt_alone_spec(s, pad, ""@, Seq::empty(), b),
            comments,
            from,
        ),
    decreases s, 0int,
{
    broadcast use crate::sheet::weaves_written;

    match s {
        StmtView::If { cond, then_body, else_body, span } => {
            let head = pad + "if "@ + format_expr_spec(cond, false) + " {\n"@;
            if else_body.len() == 0 {
                framed_is_woven(
                    head,
                    then_body,
                    pad,
                    span.end as int,
                    source,
                    comments,
                    a,
                    b,
                    from,
                );
            } else {
                let c = crate::sheet::write_text_spec(a, head);
                let d = crate::sheet::write_text_spec(b, head);
                let mid = crate::ast::stmt_span_spec(else_body[0]).start as int;
                block_is_woven(then_body, pad, mid, source, comments, c, d, from);
                let c1 = format_block_spec(then_body, pad, mid, source, comments, c);
                let d1 = format_block_spec(then_body, pad, mid, ""@, Seq::empty(), d);
                framed_is_woven(
                    pad + "} else {\n"@,
                    else_body,
                    pad,
                    span.end as int,
                    source,
                    comments,
                    c1,
                    d1,
                    from,
                );
            }
        },
        StmtView::While { cond, invariants, body, span } => {
            let head = pad + "while "@ + format_expr_spec(cond, false) + "\n"@;
            let head = format_clauses_spec(invariants, pad, "invariant "@, head, 0) + pad + "{\n"@;
            framed_is_woven(head, body, pad, span.end as int, source, comments, a, b, from);
        },
        StmtView::For { var, start, end, invariants, body, span, parallel, reductions } => {
            let head = pad + (if parallel {
                "parallel "@
            } else {
                ""@
            }) + "for "@ + var;
            let head = head + " from "@ + format_expr_spec(start, false) + " to "@
                + format_expr_spec(end, false)
                + "\n"@;
            let head = format_clauses_spec(invariants, pad, "invariant "@, head, 0);
            let head = format_reductions_spec(reductions, pad, head, 0) + pad + "{\n"@;
            framed_is_woven(head, body, pad, span.end as int, source, comments, a, b, from);
        },
        StmtView::ForIter { var, collection, consumes, body, span } => {
            let head = pad + "for "@ + var + " in "@ + (if consumes {
                ""@
            } else {
                "ref "@
            }) + collection + " {\n"@;
            framed_is_woven(head, body, pad, span.end as int, source, comments, a, b, from);
        },
        StmtView::TaskSpawn { name, body, span } => {
            let head = pad + "task "@ + name + " {\n"@;
            framed_is_woven(head, body, pad, span.end as int, source, comments, a, b, from);
        },
        _ => {},
    }
}

proof fn function_is_woven(
    f: FunctionView,
    source: Seq<char>,
    comments: Seq<CommentView>,
    a: SheetView,
    b: SheetView,
    from: int,
)
    requires
        crate::sheet::weaves(a, b, comments, from),
    ensures
        crate::sheet::weaves(
            format_function_spec(f, source, comments, a),
            format_function_spec(f, ""@, Seq::empty(), b),
            comments,
            from,
        ),
{
    broadcast use crate::sheet::weaves_written;

    crate::sheet::blanks_have_no_ink();
    let clauses = f.requires.len() > 0 || f.ensures.len() > 0;
    let before = format_clauses_spec(f.requires, ""@, "requires "@, ""@, 0);
    let after = format_clauses_spec(f.ensures, ""@, "ensures "@, ""@, 0);
    let c = crate::sheet::write_text_spec(a, function_head_spec(f));
    let d = crate::sheet::write_text_spec(b, function_head_spec(f));
    assert(crate::sheet::weaves(c, d, comments, from));
    let c1 = crate::sheet::write_text_spec(
        crate::sheet::write_text_spec(crate::sheet::write_text_spec(c, "\n"@), before),
        after,
    );
    let d1 = crate::sheet::write_text_spec(
        crate::sheet::write_text_spec(crate::sheet::write_text_spec(d, "\n"@), before),
        after,
    );
    assert(crate::sheet::weaves(c1, d1, comments, from));
    let c2 = if clauses {
        crate::sheet::write_text_spec(c1, "{\n"@)
    } else {
        crate::sheet::write_text_spec(c, " {\n"@)
    };
    let d2 = if clauses {
        crate::sheet::write_text_spec(d1, "{\n"@)
    } else {
        crate::sheet::write_text_spec(d, " {\n"@)
    };
    assert(crate::sheet::weaves(c2, d2, comments, from));
    block_is_woven(f.body, ""@, f.span.end as int, source, comments, c2, d2, from);
}

proof fn members_are_woven(
    ms: Seq<FunctionView>,
    source: Seq<char>,
    comments: Seq<CommentView>,
    a: SheetView,
    b: SheetView,
    from: int,
    i: int,
)
    requires
        crate::sheet::weaves(a, b, comments, from),
        0 <= i,
    ensures
        crate::sheet::weaves(
            format_members_spec(ms, source, comments, a, i),
            format_members_spec(ms, ""@, Seq::empty(), b, i),
            comments,
            from,
        ),
    decreases ms.len() - i,
{
    broadcast use crate::sheet::weaves_written;

    if i < ms.len() {
        let c = if i > 0 {
            crate::sheet::write_text_spec(a, "\n"@)
        } else {
            a
        };
        let d = if i > 0 {
            crate::sheet::write_text_spec(b, "\n"@)
        } else {
            b
        };
        assert(crate::sheet::weaves(c, d, comments, from));
        let c0 = SheetView { out: Seq::<char>::empty(), cursor: c.cursor };
        let d0 = SheetView { out: Seq::<char>::empty(), cursor: d.cursor };
        assert(crate::sheet::weaves(c0, d0, comments, c.cursor)) by {
            reveal(crate::sheet::weaves);
            crate::sheet::weaves_nothing(c.cursor, d.cursor, comments);
        }
        function_is_woven(ms[i], source, comments, c0, d0, c.cursor);
        let c1 = format_function_spec(ms[i], source, comments, c0);
        let d1 = format_function_spec(ms[i], ""@, Seq::empty(), d0);
        crate::sheet::weaves_moved_in(c, d, c1, d1, comments, from);
        let c2 = SheetView {
            out: c.out + crate::sheet::indent_lines_spec(c1.out),
            cursor: c1.cursor,
        };
        let d2 = SheetView {
            out: d.out + crate::sheet::indent_lines_spec(d1.out),
            cursor: d1.cursor,
        };
        members_are_woven(ms, source, comments, c2, d2, from, i + 1);
    }
}

proof fn item_is_woven(
    item: TopItemView,
    source: Seq<char>,
    comments: Seq<CommentView>,
    a: SheetView,
    b: SheetView,
    from: int,
)
    requires
        crate::sheet::weaves(a, b, comments, from),
    ensures
        crate::sheet::weaves(
            format_item_spec(item, source, comments, a),
            format_item_spec(item, ""@, Seq::empty(), b),
            comments,
            from,
        ),
{
    broadcast use crate::sheet::weaves_written;

    let none = Seq::<CommentView>::empty();
    crate::sheet::blanks_have_no_ink();
    lead_in_is_woven(source, comments, crate::sheet::item_start_spec(item), ""@, a, b, from);
    let c = lead_in_spec(source, comments, crate::sheet::item_start_spec(item), ""@, a);
    match item {
        TopItemView::Impl(d) => {
            let head = "implement "@ + d.interface_name + " for "@
                + crate::ast::type_text_spec(d.for_type) + " {\n"@;
            members_are_woven(
                d.methods,
                source,
                comments,
                crate::sheet::write_text_spec(c, head),
                crate::sheet::write_text_spec(b, head),
                from,
                0,
            );
        },
        TopItemView::Methods(d) => {
            let head = "methods on "@ + crate::ast::type_text_spec(d.for_type) + " {\n"@;
            members_are_woven(
                d.methods,
                source,
                comments,
                crate::sheet::write_text_spec(c, head),
                crate::sheet::write_text_spec(b, head),
                from,
                0,
            );
        },
        TopItemView::Function(d) => {
            function_is_woven(d, source, comments, c, b, from);
        },
        _ => {},
    }
    let d = format_item_alone_spec(item, source, comments, c);
    let e = format_item_alone_spec(item, ""@, none, b);
    assert(crate::sheet::weaves(d, e, comments, from));
    trailing_is_woven(source, comments, crate::sheet::item_end_spec(item), d, e, from);
}

proof fn items_are_woven(
    items: Seq<TopItemView>,
    source: Seq<char>,
    comments: Seq<CommentView>,
    a: SheetView,
    b: SheetView,
    from: int,
    i: int,
)
    requires
        crate::sheet::weaves(a, b, comments, from),
        0 <= i,
    ensures
        crate::sheet::weaves(
            format_items_spec(items, source, comments, a, i),
            format_items_spec(items, ""@, Seq::empty(), b, i),
            comments,
            from,
        ),
    decreases items.len() - i,
{
    broadcast use crate::sheet::weaves_written;

    if i < items.len() {
        let c = if i > 0 {
            crate::sheet::write_text_spec(a, "\n"@)
        } else {
            a
        };
        let d = if i > 0 {
            crate::sheet::write_text_spec(b, "\n"@)
        } else {
            b
        };
        assert(crate::sheet::weaves(c, d, comments, from));
        item_is_woven(items[i], source, comments, c, d, from);
        let c1 = format_item_spec(items[i], source, comments, c);
        let d1 = format_item_spec(items[i], ""@, Seq::empty(), d);
        items_are_woven(items, source, comments, c1, d1, from, i + 1);
    }
}

proof fn uses_are_woven(
    us: Seq<UseDeclView>,
    source: Seq<char>,
    comments: Seq<CommentView>,
    a: SheetView,
    b: SheetView,
    from: int,
    i: int,
)
    requires
        crate::sheet::weaves(a, b, comments, from),
        0 <= i,
    ensures
        crate::sheet::weaves(
            format_uses_spec(us, source, comments, a, i),
            format_uses_spec(us, ""@, Seq::empty(), b, i),
            comments,
            from,
        ),
    decreases us.len() - i,
{
    broadcast use crate::sheet::weaves_written;

    if i < us.len() {
        crate::sheet::blanks_have_no_ink();
        let u = us[i];
        let line = "use \""@ + escape_string_spec(u.path) + "\";\n"@;
        lead_in_is_woven(source, comments, u.span.start as int, ""@, a, b, from);
        let c = crate::sheet::write_text_spec(
            lead_in_spec(source, comments, u.span.start as int, ""@, a),
            line,
        );
        let d = crate::sheet::write_text_spec(b, line);
        trailing_is_woven(source, comments, u.span.end as int, c, d, from);
        let c1 = try_attach_trailing_spec(source, comments, u.span.end as int, c);
        uses_are_woven(us, source, comments, c1, d, from, i + 1);
    }
}

proof fn intents_are_woven(
    ns: Seq<IntentDeclView>,
    source: Seq<char>,
    comments: Seq<CommentView>,
    a: SheetView,
    b: SheetView,
    from: int,
    i: int,
)
    requires
        crate::sheet::weaves(a, b, comments, from),
        0 <= i,
    ensures
        crate::sheet::weaves(
            format_intents_spec(ns, source, comments, a, i),
            format_intents_spec(ns, ""@, Seq::empty(), b, i),
            comments,
            from,
        ),
    decreases ns.len() - i,
{
    broadcast use crate::sheet::weaves_written;

    if i < ns.len() {
        crate::sheet::blanks_have_no_ink();
        let n = ns[i];
        let line = "intent \""@ + escape_string_spec(n.text) + "\";\n"@;
        lead_in_is_woven(source, comments, n.span.start as int, ""@, a, b, from);
        let c = crate::sheet::write_text_spec(
            lead_in_spec(source, comments, n.span.start as int, ""@, a),
            line,
        );
        let d = crate::sheet::write_text_spec(b, line);
        trailing_is_woven(source, comments, n.span.end as int, c, d, from);
        let c1 = try_attach_trailing_spec(source, comments, n.span.end as int, c);
        intents_are_woven(ns, source, comments, c1, d, from, i + 1);
    }
}

/// Writing a program with its comments loses no comment, writes none twice and
/// moves none past another: without them, what is left is the program as it is
/// written without comments, up to white space.
pub proof fn comments_are_woven_in(p: ProgramView, source: Seq<char>, comments: Seq<CommentView>)
    requires
        crate::sheet::on_one_line(comments),
    ensures
        crate::sheet::woven(
            format_program_with_comments_spec(p, source, comments),
            crate::sheet::ink(format_program_spec(p)),
            crate::sheet::texts_between(comments, 0, comments.len() as int),
        ),
{
    broadcast use crate::sheet::weaves_written;

    let none = Seq::<CommentView>::empty();
    let blank = SheetView { out: Seq::<char>::empty(), cursor: 0 };
    crate::sheet::weaves_nothing(0, 0, comments);
    uses_are_woven(p.uses, source, comments, blank, blank, 0, 0);
    let a1 = format_uses_spec(p.uses, source, comments, blank, 0);
    let b1 = format_uses_spec(p.uses, ""@, none, blank, 0);
    let a2 = if p.uses.len() > 0 {
        crate::sheet::write_text_spec(a1, "\n"@)
    } else {
        a1
    };
    let b2 = if p.uses.len() > 0 {
        crate::sheet::write_text_spec(b1, "\n"@)
    } else {
        b1
    };
    assert(crate::sheet::weaves(a2, b2, comments, 0));
    intents_are_woven(p.intents, source, comments, a2, b2, 0, 0);
    let a3 = format_intents_spec(p.intents, source, comments, a2, 0);
    let b3 = format_intents_spec(p.intents, ""@, none, b2, 0);
    let a4 = if p.intents.len() > 0 {
        crate::sheet::write_text_spec(a3, "\n"@)
    } else {
        a3
    };
    let b4 = if p.intents.len() > 0 {
        crate::sheet::write_text_spec(b3, "\n"@)
    } else {
        b3
    };
    assert(crate::sheet::weaves(a4, b4, comments, 0));
    let items = items_in_order_spec(p);
    items_are_woven(items, source, comments, a4, b4, 0, 0);
    let a5 = format_items_spec(items, source, comments, a4, 0);
    let b5 = format_items_spec(items, ""@, none, b4, 0);
    rest_is_woven(source, comments, a5, b5, 0);
    reveal(crate::sheet::weaves);
}

} // verus!
