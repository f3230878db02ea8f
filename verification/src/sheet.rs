//! The formatter's page: the text written so far with its comment cursor, the
//! blank-line tests on the source, and the order of the top-level items.

use vstd::prelude::*;
use crate::ast::{
    Comment, CommentView, ConstDecl, ConstDeclView, EnumDecl, EnumDeclView, Function, FunctionView,
    ImplDecl, ImplDeclView, InterfaceDecl, InterfaceDeclView, MethodsBlock, MethodsBlockView,
    StructDecl, StructDeclView, TypeAlias, TypeAliasView,
};
use crate::text::{chars_of, put, slice_chars, text_of, trim_end};

verus! {

broadcast use {
    crate::text::group_text_views,
    crate::ast::group_ast_views,
    crate::diagnostic::group_diagnostic_views,
};

/// The text written so far and the number of comments already placed.
#[derive(Debug, PartialEq)]
pub struct Sheet {
    pub out: Vec<char>,
    pub cursor: usize,
}

/// The mathematical content of a [`Sheet`].
pub struct SheetView {
    pub out: Seq<char>,
    pub cursor: int,
}

pub open spec fn sheet_view(x: Sheet) -> SheetView
{
    SheetView {
        out: x.out@,
        cursor: x.cursor as int,
    }
}

impl View for Sheet {
    type V = SheetView;

    open spec fn view(&self) -> SheetView {
        sheet_view(*self)
    }
}

impl Sheet {
    /// A copy with the same content.
    pub fn dup(&self) -> (r: Self)
        ensures
            r@ == self@,
    {
        Sheet {
            out: crate::text::dup_plain(&self.out),
            cursor: self.cursor,
        }
    }
}

/// A top-level declaration other than a `use` or an intent.
#[derive(Debug, PartialEq)]
pub enum TopItem {
    Struct(StructDecl),
    Enum(EnumDecl),
    Interface(InterfaceDecl),
    Impl(ImplDecl),
    Const(ConstDecl),
    Alias(TypeAlias),
    Methods(MethodsBlock),
    Function(Function),
}

/// The mathematical content of a [`TopItem`].
pub enum TopItemView {
    Struct(StructDeclView),
    Enum(EnumDeclView),
    Interface(InterfaceDeclView),
    Impl(ImplDeclView),
    Const(ConstDeclView),
    Alias(TypeAliasView),
    Methods(MethodsBlockView),
    Function(FunctionView),
}

pub open spec fn top_item_view(x: TopItem) -> TopItemView
{
    match x {
        TopItem::Struct(a) => TopItemView::Struct(crate::ast::struct_decl_view(a)),
        TopItem::Enum(a) => TopItemView::Enum(crate::ast::enum_decl_view(a)),
        TopItem::Interface(a) => TopItemView::Interface(crate::ast::interface_decl_view(a)),
        TopItem::Impl(a) => TopItemView::Impl(crate::ast::impl_decl_view(a)),
        TopItem::Const(a) => TopItemView::Const(crate::ast::const_decl_view(a)),
        TopItem::Alias(a) => TopItemView::Alias(crate::ast::type_alias_view(a)),
        TopItem::Methods(a) => TopItemView::Methods(crate::ast::methods_block_view(a)),
        TopItem::Function(a) => TopItemView::Function(crate::ast::function_view(a)),
    }
}

impl View for TopItem {
    type V = TopItemView;

    open spec fn view(&self) -> TopItemView {
        top_item_view(*self)
    }
}

impl TopItem {
    /// A copy with the same content.
    pub fn dup(&self) -> (r: Self)
        ensures
            r@ == self@,
    {
        match self {
            TopItem::Struct(a) => TopItem::Struct(a.dup()),
            TopItem::Enum(a) => TopItem::Enum(a.dup()),
            TopItem::Interface(a) => TopItem::Interface(a.dup()),
            TopItem::Impl(a) => TopItem::Impl(a.dup()),
            TopItem::Const(a) => TopItem::Const(a.dup()),
            TopItem::Alias(a) => TopItem::Alias(a.dup()),
            TopItem::Methods(a) => TopItem::Methods(a.dup()),
            TopItem::Function(a) => TopItem::Function(a.dup()),
        }
    }
}

pub open spec fn items_view(s: Seq<TopItem>) -> Seq<TopItemView>
{
    Seq::new(s.len(), |i: int| top_item_view(s[i]))
}

pub broadcast proof fn items_view_push(s: Seq<TopItem>, x: TopItem)
    ensures
        #[trigger] items_view(s.push(x)) == items_view(s).push(top_item_view(x)),
{
    assert(items_view(s.push(x)) =~= items_view(s).push(top_item_view(x)));
}

pub broadcast proof fn items_view_empty(s: Seq<TopItem>)
    requires
        s.len() == 0,
    ensures
        #[trigger] items_view(s) == Seq::<TopItemView>::empty(),
{
    assert(items_view(s) =~= Seq::<TopItemView>::empty());
}

pub broadcast proof fn items_view_add(a: Seq<TopItem>, b: Seq<TopItem>)
    ensures
        #[trigger] items_view(a + b) == items_view(a) + items_view(b),
{
    assert(items_view(a + b) =~= items_view(a) + items_view(b));
}

pub broadcast proof fn items_view_subrange(s: Seq<TopItem>, a: int, b: int)
    requires
        0 <= a <= b <= s.len(),
    ensures
        #[trigger] items_view(s.subrange(a, b)) == items_view(s).subrange(a, b),
{
    assert(items_view(s.subrange(a, b)) =~= items_view(s).subrange(a, b));
}

pub broadcast proof fn items_view_update(s: Seq<TopItem>, i: int, x: TopItem)
    requires
        0 <= i < s.len(),
    ensures
        #[trigger] items_view(s.update(i, x)) == items_view(s).update(i, top_item_view(x)),
{
    assert(items_view(s.update(i, x)) =~= items_view(s).update(i, top_item_view(x)));
}

/// A space, tab or carriage return.
pub open spec fn is_blank_byte(b: u8) -> bool {
    b == 32 || b == 9 || b == 13
}

/// Only line breaks and blanks lie between `i` and `pos`, with a line break at
/// `i` and another one after it.
pub open spec fn two_breaks(b: Seq<u8>, i: int, j: int, pos: int) -> bool {
    &&& 0 <= i < j < pos
    &&& b[i] == 10
    &&& b[j] == 10
    &&& forall|k: int| i <= k < pos ==> b[k] == 10 || is_blank_byte(#[trigger] b[k])
}

/// The source has a blank line just before the byte offset `pos`.
pub open spec fn has_blank_line_before_spec(source: Seq<char>, pos: int) -> bool {
    let b = vstd::utf8::encode_utf8(source);
    pos <= b.len() && exists|i: int, j: int| two_breaks(b, i, j, pos)
}

pub fn has_blank_line_before(source: &str, pos: usize) -> (r: bool)
    ensures
        r == has_blank_line_before_spec(source@, pos as int),
{
    let b = source.as_bytes();
    if pos > b.len() {
        return false;
    }
    let mut i: usize = pos;
    let mut seen: bool = false;
    let ghost mut at: int = 0;
    while i > 0
        invariant
            i <= pos <= b.len(),
            b@ == vstd::utf8::encode_utf8(source@),
            forall|k: int| i <= k < pos ==> b@[k] == 10 || is_blank_byte(#[trigger] b@[k]),
            seen ==> i <= at < pos && b@[at] == 10,
            !seen ==> forall|k: int| i <= k < pos ==> #[trigger] b@[k] != 10,
            seen ==> forall|k: int| i <= k < pos && k != at ==> #[trigger] b@[k] != 10,
        decreases i,
    {
        i -= 1;
        if b[i] == 10 {
            if seen {
                assert(two_breaks(b@, i as int, at, pos as int));
                return true;
            }
            seen = true;
            proof {
                at = i as int;
            }
        } else if !(b[i] == 32 || b[i] == 9 || b[i] == 13) {
            proof {
                if exists|x: int, y: int| two_breaks(b@, x, y, pos as int) {
                    let (x, y) = choose|x: int, y: int| two_breaks(b@, x, y, pos as int);
                    assert(b@[x] == 10);
                    assert(b@[y] == 10);
                    if x <= i {
                        assert(b@[i as int] == 10 || is_blank_byte(b@[i as int]));
                    }
                }
            }
            return false;
        }
    }
    proof {
        if exists|x: int, y: int| two_breaks(b@, x, y, pos as int) {
            let (x, y) = choose|x: int, y: int| two_breaks(b@, x, y, pos as int);
            assert(b@[x] == 10);
            assert(b@[y] == 10);
        }
    }
    false
}

/// A line break lies among the bytes from `from` up to `to`.
pub open spec fn break_between_spec(source: Seq<char>, from: int, to: int) -> bool {
    exists|k: int| from <= k < to && vstd::utf8::encode_utf8(source)[k] == 10
}

pub fn break_between(source: &str, from: usize, to: usize) -> (r: bool)
    requires
        to <= crate::text::byte_len(source@),
    ensures
        r == break_between_spec(source@, from as int, to as int),
{
    let b = source.as_bytes();
    let mut i: usize = from;
    while i < to
        invariant
            from <= i,
            to <= b.len(),
            b@ == vstd::utf8::encode_utf8(source@),
            forall|k: int| from <= k < i ==> #[trigger] b@[k] != 10,
        decreases to - i,
    {
        if b[i] == 10 {
            assert(vstd::utf8::encode_utf8(source@)[i as int] == 10);
            return true;
        }
        i += 1;
    }
    false
}

/// Each line of `s` two columns further in; an empty line stays empty.
pub open spec fn indent_lines_spec(s: Seq<char>) -> Seq<char>
    decreases s.len(),
{
    if s.len() == 0 {
        Seq::empty()
    } else {
        let k = crate::diagnostic::line_end_of(s, 0);
        let line = line_of(s, k);
        let rest = if 0 <= k < s.len() {
            s.subrange(k + 1, s.len() as int)
        } else {
            Seq::empty()
        };
        (if line.len() == 0 {
            "\n"@
        } else {
            "  "@ + line + "\n"@
        }) + indent_lines_spec(rest)
    }
}

/// The line of `s` that ends at `k`, without the carriage return in front of
/// its line break.
pub open spec fn line_of(s: Seq<char>, k: int) -> Seq<char> {
    if 0 < k < s.len() && s[k - 1] == '\r' {
        s.subrange(0, k - 1)
    } else {
        s.subrange(0, k)
    }
}

pub fn indent_lines(s: &Vec<char>) -> (r: Vec<char>)
    ensures
        r@ == indent_lines_spec(s@),
{
    let mut out: Vec<char> = Vec::new();
    let mut from: usize = 0;
    assert(s@.subrange(0, s@.len() as int) =~= s@);
    while from < s.len()
        invariant
            from <= s.len(),
            out@ + indent_lines_spec(s@.subrange(from as int, s@.len() as int))
                =~= indent_lines_spec(s@),
        decreases s.len() - from,
    {
        let ghost rest = s@.subrange(from as int, s@.len() as int);
        let ghost before = out@;
        let mut k: usize = from;
        while k < s.len() && s[k] != '\n'
            invariant
                from <= k <= s.len(),
                rest == s@.subrange(from as int, s@.len() as int),
                crate::diagnostic::line_end_of(
                    rest,
                    k - from,
                ) == crate::diagnostic::line_end_of(rest, 0),
            decreases s.len() - k,
        {
            assert(rest[k - from] == s@[k as int]);
            k += 1;
        }
        assert(k < s.len() ==> rest[k - from] == s@[k as int]);
        assert(crate::diagnostic::line_end_of(rest, 0) == k - from);
        let end: usize = if k > from && k < s.len() && s[k - 1] == '\r' {
            k - 1
        } else {
            k
        };
        assert(k > from ==> rest[k - from - 1] == s@[k - 1]);
        let line = slice_chars(s, from, end);
        assert(line@ =~= line_of(rest, k - from));
        if line.len() == 0 {
            out = put(out, "\n");
        } else {
            out = put(out, "  ");
            let mut line = line;
            out.append(&mut line);
            out = put(out, "\n");
        }
        if k < s.len() {
            assert(rest.subrange(k - from + 1, rest.len() as int) =~= s@.subrange(
                k + 1,
                s@.len() as int,
            ));
            from = k + 1;
        } else {
            assert(s@.subrange(s@.len() as int, s@.len() as int) =~= Seq::<char>::empty());
            from = k;
        }
    }
    assert(s@.subrange(s@.len() as int, s@.len() as int) =~= Seq::<char>::empty());
    out
}

/// How many items at the front of a list start no later than `start`.
pub open spec fn not_after(v: Seq<TopItemView>, start: int) -> int
    decreases v.len(),
{
    if v.len() > 0 && item_start_spec(v[0]) <= start {
        1 + not_after(v.subrange(1, v.len() as int), start)
    } else {
        0
    }
}

/// A list ordered by start, with one more item behind those that start no
/// later.
pub open spec fn insert_item_spec(v: Seq<TopItemView>, x: TopItemView) -> Seq<TopItemView> {
    v.insert(not_after(v, item_start_spec(x)), x)
}

pub fn insert_item(v: Vec<TopItem>, x: TopItem) -> (r: Vec<TopItem>)
    ensures
        items_view(r@) == insert_item_spec(items_view(v@), x@),
{
    let start: usize = item_start(&x);
    let ghost all = items_view(v@);
    let mut k: usize = 0;
    assert(all.subrange(0, all.len() as int) =~= all);
    while k < v.len() && item_start(&v[k]) <= start
        invariant
            k <= v.len(),
            all == items_view(v@),
            not_after(all, start as int) == k + not_after(
                all.subrange(k as int, all.len() as int),
                start as int,
            ),
        decreases v.len() - k,
    {
        let ghost rest = all.subrange(k as int, all.len() as int);
        assert(rest.subrange(1, rest.len() as int) =~= all.subrange(k + 1, all.len() as int));
        assert(rest[0] == v@[k as int]@);
        k += 1;
    }
    proof {
        let rest = all.subrange(k as int, all.len() as int);
        if k < v.len() {
            assert(rest[0] == v@[k as int]@);
        }
        assert(not_after(rest, start as int) == 0);
    }
    let ghost before = v@;
    let mut v = v;
    v.insert(k, x);
    assert(items_view(v@) =~= all.insert(k as int, x@));
    v
}

/// What [`item_start`] computes.
pub open spec fn item_start_spec(item: TopItemView) -> int
{
    match item {
        TopItemView::Struct(d) => (d.span.start as int),
        TopItemView::Enum(d) => (d.span.start as int),
        TopItemView::Interface(d) => (d.span.start as int),
        TopItemView::Impl(d) => (d.span.start as int),
        TopItemView::Const(d) => (d.span.start as int),
        TopItemView::Alias(d) => (d.span.start as int),
        TopItemView::Methods(d) => (d.span.start as int),
        TopItemView::Function(d) => (d.span.start as int),
    }
}

/// Where a declaration starts.
pub fn item_start(item: &TopItem) -> (r: usize)
    ensures
        r as int == item_start_spec(item@),
{
    match item {
        TopItem::Struct(d) => d.span.start,
        TopItem::Enum(d) => d.span.start,
        TopItem::Interface(d) => d.span.start,
        TopItem::Impl(d) => d.span.start,
        TopItem::Const(d) => d.span.start,
        TopItem::Alias(d) => d.span.start,
        TopItem::Methods(d) => d.span.start,
        TopItem::Function(d) => d.span.start,
    }
}

/// What [`item_end`] computes.
pub open spec fn item_end_spec(item: TopItemView) -> int
{
    match item {
        TopItemView::Struct(d) => (d.span.end as int),
        TopItemView::Enum(d) => (d.span.end as int),
        TopItemView::Interface(d) => (d.span.end as int),
        TopItemView::Impl(d) => (d.span.end as int),
        TopItemView::Const(d) => (d.span.end as int),
        TopItemView::Alias(d) => (d.span.end as int),
        TopItemView::Methods(d) => (d.span.end as int),
        TopItemView::Function(d) => (d.span.end as int),
    }
}

/// Where a declaration ends.
pub fn item_end(item: &TopItem) -> (r: usize)
    ensures
        r as int == item_end_spec(item@),
{
    match item {
        TopItem::Struct(d) => d.span.end,
        TopItem::Enum(d) => d.span.end,
        TopItem::Interface(d) => d.span.end,
        TopItem::Impl(d) => d.span.end,
        TopItem::Const(d) => d.span.end,
        TopItem::Alias(d) => d.span.end,
        TopItem::Methods(d) => d.span.end,
        TopItem::Function(d) => d.span.end,
    }
}

/// What [`comment_text`] computes.
pub open spec fn comment_text_spec(c: CommentView) -> Seq<char>
{
    crate::text::trim_end_spec(c.text)
}

/// The text of a comment as it is written out.
pub fn comment_text(c: &Comment) -> (r: String)
    ensures
        r@ == comment_text_spec(c@),
{
    text_of(&trim_end(&chars_of(&c.text)))
}

/// What [`write_text`] computes.
pub open spec fn write_text_spec(st: SheetView, s: Seq<char>) -> SheetView
{
    SheetView { out: st.out + s, cursor: st.cursor }
}

/// Writes at the end.
pub fn write_text(st: Sheet, s: &str) -> (r: Sheet)
    ensures
        r@ == write_text_spec(st@, s@),
{
    Sheet { out: put(st.out, s), cursor: st.cursor }
}

/// The texts of the comments from one position up to another, as they are
/// written out.
pub open spec fn texts_between(comments: Seq<CommentView>, from: int, to: int) -> Seq<Seq<char>> {
    Seq::new((to - from) as nat, |k: int| comment_text_spec(comments[from + k]))
}

/// Each comment stands on one line.
pub open spec fn on_one_line(comments: Seq<CommentView>) -> bool {
    forall|k: int| 0 <= k < comments.len() ==> !(#[trigger] comments[k]).text.contains('\n')
}

/// A text within one line that does not end in a carriage return.
pub open spec fn is_plain(t: Seq<char>) -> bool {
    !t.contains('\n') && (t.len() > 0 ==> t.last() != '\r')
}

pub open spec fn all_plain(ts: Seq<Seq<char>>) -> bool {
    forall|k: int| 0 <= k < ts.len() ==> is_plain(#[trigger] ts[k])
}

/// The last of the texts stands at `p`.
pub open spec fn last_text_at(out: Seq<char>, ts: Seq<Seq<char>>, p: int) -> bool {
    &&& 0 <= p
    &&& p + ts.last().len() <= out.len()
    &&& out.subrange(p, p + ts.last().len()) == ts.last()
}

/// A text without its white space.
pub open spec fn ink(s: Seq<char>) -> Seq<char>
    decreases s.len(),
{
    if s.len() == 0 {
        Seq::empty()
    } else if crate::text::is_space_spec(s.last()) {
        ink(s.drop_last())
    } else {
        ink(s.drop_last()).push(s.last())
    }
}

pub proof fn ink_joined(a: Seq<char>, b: Seq<char>)
    ensures
        ink(a + b) == ink(a) + ink(b),
    decreases b.len(),
{
    if b.len() == 0 {
        assert(a + b =~= a);
    } else {
        assert((a + b).drop_last() =~= a + b.drop_last());
        ink_joined(a, b.drop_last());
    }
}

/// What is written behind the last of the texts, without its white space.
pub open spec fn code_behind(out: Seq<char>, ts: Seq<Seq<char>>, p: int) -> Seq<char> {
    ink(out.subrange(p + ts.last().len(), out.len() as int))
}

pub open spec fn is_end_of(end: Seq<char>, s: Seq<char>) -> bool {
    end.len() <= s.len() && s.subrange(s.len() - end.len(), s.len() as int) == end
}

pub open spec fn without_end(s: Seq<char>, end: Seq<char>) -> Seq<char> {
    s.subrange(0, s.len() - end.len())
}

/// The texts stand in `out` one after the other, each of them once, and what
/// stands around them is `code`, up to white space.
pub open spec fn woven(out: Seq<char>, code: Seq<char>, ts: Seq<Seq<char>>) -> bool
    decreases ts.len(),
{
    if ts.len() == 0 {
        ink(out) == code
    } else {
        exists|p: int| #[trigger]
            last_text_at(out, ts, p) && is_end_of(code_behind(out, ts, p), code) && woven(
                out.subrange(0, p),
                without_end(code, code_behind(out, ts, p)),
                ts.drop_last(),
            )
    }
}

/// Where the last of the texts stands, behind the others.
pub open spec fn last_place(out: Seq<char>, code: Seq<char>, ts: Seq<Seq<char>>) -> int {
    choose|p: int| #[trigger]
        last_text_at(out, ts, p) && is_end_of(code_behind(out, ts, p), code) && woven(
            out.subrange(0, p),
            without_end(code, code_behind(out, ts, p)),
            ts.drop_last(),
        )
}

/// A text stands behind others that are woven in front of it.
proof fn woven_at(out: Seq<char>, head: Seq<char>, ts: Seq<Seq<char>>, p: int)
    requires
        ts.len() > 0,
        last_text_at(out, ts, p),
        woven(out.subrange(0, p), head, ts.drop_last()),
    ensures
        woven(out, head + code_behind(out, ts, p), ts),
{
    let end = code_behind(out, ts, p);
    assert((head + end).subrange(head.len() as int, (head + end).len() as int) =~= end);
    assert(without_end(head + end, end) =~= head);
}

/// The last of woven texts, and the code in front of it.
proof fn woven_parts(out: Seq<char>, code: Seq<char>, ts: Seq<Seq<char>>) -> (r: (int, Seq<char>))
    requires
        ts.len() > 0,
        woven(out, code, ts),
    ensures
        last_text_at(out, ts, r.0),
        woven(out.subrange(0, r.0), r.1, ts.drop_last()),
        code == r.1 + code_behind(out, ts, r.0),
{
    let p = last_place(out, code, ts);
    let head = without_end(code, code_behind(out, ts, p));
    assert(code =~= head + code_behind(out, ts, p));
    (p, head)
}

/// More is written behind what is woven.
pub proof fn woven_before(out: Seq<char>, more: Seq<char>, code: Seq<char>, ts: Seq<Seq<char>>)
    requires
        woven(out, code, ts),
    ensures
        woven(out + more, code + ink(more), ts),
{
    if ts.len() == 0 {
        ink_joined(out, more);
    } else {
        let (p, head) = woven_parts(out, code, ts);
        let n = ts.last().len();
        let all = out + more;
        assert(all.subrange(p, p + n) =~= out.subrange(p, p + n));
        assert(all.subrange(0, p) =~= out.subrange(0, p));
        let rest = out.subrange(p + n, out.len() as int);
        assert(all.subrange(p + n, all.len() as int) =~= rest + more);
        ink_joined(rest, more);
        woven_at(all, head, ts, p);
        assert(head + (ink(rest) + ink(more)) =~= code + ink(more));
    }
}

/// A text that is written behind what is woven joins it.
pub proof fn woven_added(
    out: Seq<char>,
    code: Seq<char>,
    ts: Seq<Seq<char>>,
    pad: Seq<char>,
    t: Seq<char>,
    end: Seq<char>,
)
    requires
        woven(out, code, ts),
        ink(pad).len() == 0,
        ink(end).len() == 0,
    ensures
        woven(out + pad + t + end, code, ts.push(t)),
{
    woven_before(out, pad, code, ts);
    assert(code + ink(pad) =~= code);
    let all = out + pad + t + end;
    let us = ts.push(t);
    let p = (out + pad).len() as int;
    assert(all.subrange(p, p + t.len()) =~= t);
    assert(all.subrange(0, p) =~= out + pad);
    assert(all.subrange(p + t.len(), all.len() as int) =~= end);
    assert(us.drop_last() =~= ts);
    assert(us.last() == t);
    woven_at(all, code, us, p);
    assert(code + ink(end) =~= code);
}

/// Taking off white space at the end that no text ends in changes nothing of
/// what is woven.
pub proof fn woven_without_last(out: Seq<char>, code: Seq<char>, ts: Seq<Seq<char>>)
    requires
        out.len() > 0,
        crate::text::is_space_spec(out.last()),
        woven(out, code, ts),
        forall|k: int| 0 <= k < ts.len() && (#[trigger] ts[k]).len() > 0 ==> ts[k].last() != out.last(),
    ensures
        woven(out.drop_last(), code, ts),
    decreases ts.len(),
{
    if ts.len() > 0 {
        let (p, head) = woven_parts(out, code, ts);
        let t = ts.last();
        let n = t.len() as int;
        let front = ts.drop_last();
        let less = out.drop_last();
        if p + n < out.len() {
            assert(less.subrange(p, p + n) =~= out.subrange(p, p + n));
            assert(less.subrange(0, p) =~= out.subrange(0, p));
            let rest = out.subrange(p + n, out.len() as int);
            assert(less.subrange(p + n, less.len() as int) =~= rest.drop_last());
            assert(rest.last() == out.last());
            woven_at(less, head, ts, p);
        } else {
            if n > 0 {
                assert(out.subrange(p, p + n)[n - 1] == out[p + n - 1]);
                assert(ts[ts.len() - 1].last() != out.last());
            }
            assert(out.subrange(0, p) =~= out);
            assert forall|k: int| 0 <= k < front.len()
                && (#[trigger] front[k]).len() > 0 implies front[k].last()
                != out.last() by {
                assert(ts[k] == front[k]);
            }
            woven_without_last(out, head, front);
            let q = p - 1;
            assert(less.subrange(q, q + n) =~= t);
            assert(less.subrange(0, q) =~= less);
            assert(
                less.subrange(q + n, less.len() as int) =~= out.subrange(p + n, out.len() as int)
            );
            woven_at(less, head, ts, q);
        }
    }
}

/// Two texts, one behind the other, are woven of what both are woven of.
pub proof fn woven_joined(
    a: Seq<char>,
    c: Seq<char>,
    ts: Seq<Seq<char>>,
    b: Seq<char>,
    d: Seq<char>,
    us: Seq<Seq<char>>,
)
    requires
        woven(a, c, ts),
        woven(b, d, us),
    ensures
        woven(a + b, c + d, ts + us),
    decreases us.len(),
{
    if us.len() == 0 {
        woven_before(a, b, c, ts);
        assert(ts + us =~= ts);
    } else {
        let (p, head) = woven_parts(b, d, us);
        let n = us.last().len() as int;
        woven_joined(a, c, ts, b.subrange(0, p), head, us.drop_last());
        let q = a.len() + p;
        let all = a + b;
        assert(all.subrange(q, q + n) =~= b.subrange(p, p + n));
        assert(all.subrange(0, q) =~= a + b.subrange(0, p));
        assert(all.subrange(q + n, all.len() as int) =~= b.subrange(p + n, b.len() as int));
        assert((ts + us).drop_last() =~= ts + us.drop_last());
        assert((ts + us).last() == us.last());
        woven_at(all, c + head, ts + us, q);
        assert(c + head + code_behind(b, us, p) =~= c + d);
    }
}

/// What is woven parts at a line break: the first of the texts, and the first
/// of the code, stand in front of it, the others behind it.
pub proof fn woven_parted(
    x: Seq<char>,
    y: Seq<char>,
    code: Seq<char>,
    ts: Seq<Seq<char>>,
) -> (r: (int, int))
    requires
        x.len() > 0,
        x.last() == '\n',
        all_plain(ts),
        woven(x + y, code, ts),
    ensures
        0 <= r.0 <= ts.len(),
        0 <= r.1 <= code.len(),
        woven(x, code.subrange(0, r.1), ts.subrange(0, r.0)),
        woven(y, code.subrange(r.1, code.len() as int), ts.subrange(r.0, ts.len() as int)),
    decreases ts.len(),
{
    let n = ts.len() as int;
    let m = code.len() as int;
    if n == 0 {
        ink_joined(x, y);
        let k = ink(x).len() as int;
        assert(code.subrange(0, k) =~= ink(x));
        assert(code.subrange(k, m) =~= ink(y));
        assert(ts.subrange(0, 0).len() == 0);
        (0, k)
    } else {
        let s = x + y;
        let (p, head) = woven_parts(s, code, ts);
        let t = ts.last();
        let len = t.len() as int;
        let front = ts.drop_last();
        assert forall|k: int| 0 <= k < front.len() implies is_plain(#[trigger] front[k]) by {
            assert(front[k] == ts[k]);
        }
        if p + len <= x.len() {
            assert(x.subrange(p, p + len) =~= s.subrange(p, p + len));
            assert(x.subrange(0, p) =~= s.subrange(0, p));
            let rest = x.subrange(p + len, x.len() as int);
            assert(s.subrange(p + len, s.len() as int) =~= rest + y);
            ink_joined(rest, y);
            woven_at(x, head, ts, p);
            let k = m - ink(y).len();
            assert(code =~= head + ink(rest) + ink(y));
            assert(code.subrange(0, k) =~= head + ink(rest));
            assert(code.subrange(k, m) =~= ink(y));
            assert(ts.subrange(0, n) =~= ts);
            assert(ts.subrange(n, n).len() == 0);
            (n, k)
        } else {
            if p < x.len() {
                let k = x.len() - 1 - p;
                assert(s.subrange(p, p + len)[k] == s[x.len() - 1]);
                assert(t[k] == '\n');
                assert(is_plain(ts[n - 1]));
                assert(t.contains('\n'));
            }
            let q = p - x.len();
            let z = y.subrange(0, q);
            assert(s.subrange(0, p) =~= x + z);
            let (r, k) = woven_parted(x, z, head, front);
            assert(front.subrange(0, r) =~= ts.subrange(0, r));
            let back = ts.subrange(r, n);
            assert(back.drop_last() =~= front.subrange(r, n - 1));
            assert(back.last() == t);
            assert(y.subrange(q, q + len) =~= s.subrange(p, p + len));
            assert(y.subrange(q + len, y.len() as int) =~= s.subrange(p + len, s.len() as int));
            woven_at(y, head.subrange(k, head.len() as int), back, q);
            assert(code.subrange(0, k) =~= head.subrange(0, k));
            assert(
                code.subrange(k, m) =~= head.subrange(k, head.len() as int) + code_behind(s, ts, p)
            );
            (r, k)
        }
    }
}

/// A line moved in, with its line break.
pub open spec fn indented_line(line: Seq<char>) -> Seq<char> {
    if line.len() == 0 {
        "\n"@
    } else {
        "  "@ + line + "\n"@
    }
}

/// White space is no ink.
pub proof fn blanks_have_no_ink()
    ensures
        ink("  "@) == Seq::<char>::empty(),
        ink("\n"@) == Seq::<char>::empty(),
        ink(""@) == Seq::<char>::empty(),
{
    reveal_strlit("  ");
    reveal_strlit("\n");
    reveal_strlit("");
    let two = "  "@;
    assert(two.drop_last().drop_last() =~= Seq::<char>::empty());
    reveal_with_fuel(ink, 3);
    assert("\n"@.drop_last() =~= Seq::<char>::empty());
}

proof fn woven_indented_line(line: Seq<char>, code: Seq<char>, ts: Seq<Seq<char>>)
    requires
        woven(line, code, ts),
    ensures
        woven(indented_line(line), code, ts),
{
    blanks_have_no_ink();
    let none = Seq::<Seq<char>>::empty();
    let blank = Seq::<char>::empty();
    if line.len() == 0 {
        woven_before(line, "\n"@, code, ts);
        assert(line + "\n"@ =~= "\n"@);
        assert(code + blank =~= code);
    } else {
        assert(woven("  "@, blank, none));
        woven_joined("  "@, blank, none, line, code, ts);
        assert(none + ts =~= ts);
        assert(blank + code =~= code);
        woven_before("  "@ + line, "\n"@, code, ts);
        assert(code + blank =~= code);
    }
}

/// A line ends at a line break or at the end of the text.
proof fn line_end_breaks(s: Seq<char>, p: int)
    requires
        0 <= p <= s.len(),
    ensures
        p <= crate::diagnostic::line_end_of(s, p) <= s.len(),
        crate::diagnostic::line_end_of(s, p) < s.len()
            ==> s[crate::diagnostic::line_end_of(s, p)] == '\n',
    decreases s.len() - p,
{
    if p < s.len() && s[p] != '\n' {
        line_end_breaks(s, p + 1);
    }
}

/// Moving lines in changes nothing of what is woven.
pub proof fn woven_indented(s: Seq<char>, code: Seq<char>, ts: Seq<Seq<char>>)
    requires
        woven(s, code, ts),
        all_plain(ts),
    ensures
        woven(indent_lines_spec(s), code, ts),
    decreases s.len(),
{
    if s.len() > 0 {
        let k = crate::diagnostic::line_end_of(s, 0);
        line_end_breaks(s, 0);
        let line = line_of(s, k);
        if k < s.len() {
            let x = s.subrange(0, k + 1);
            let y = s.subrange(k + 1, s.len() as int);
            assert(x + y =~= s);
            assert(x.last() == '\n');
            let (r, m) = woven_parted(x, y, code, ts);
            let us = ts.subrange(0, r);
            let vs = ts.subrange(r, ts.len() as int);
            let c = code.subrange(0, m);
            let d = code.subrange(m, code.len() as int);
            assert(us + vs =~= ts);
            assert(c + d =~= code);
            assert forall|i: int| 0 <= i < us.len() implies is_plain(#[trigger] us[i]) by {
                assert(us[i] == ts[i]);
            }
            assert forall|i: int| 0 <= i < vs.len() implies is_plain(#[trigger] vs[i]) by {
                assert(vs[i] == ts[r + i]);
            }
            assert forall|i: int| 0 <= i < us.len()
                && (#[trigger] us[i]).len() > 0 implies us[i].last()
                != '\n' by {
                assert(us[i].contains(us[i].last()));
            }
            woven_without_last(x, c, us);
            assert(x.drop_last() =~= s.subrange(0, k));
            if 0 < k && s[k - 1] == '\r' {
                woven_without_last(s.subrange(0, k), c, us);
                assert(s.subrange(0, k).drop_last() =~= line);
            }
            woven_indented_line(line, c, us);
            woven_indented(y, d, vs);
            woven_joined(indented_line(line), c, us, indent_lines_spec(y), d, vs);
        } else {
            assert(line =~= s);
            woven_indented_line(line, code, ts);
            reveal_with_fuel(indent_lines_spec, 2);
            assert(indent_lines_spec(s) =~= indented_line(line));
        }
    } else {
        assert(s =~= Seq::<char>::empty());
    }
}

/// A trimmed text within one line is plain.
pub proof fn trimmed_is_plain(s: Seq<char>)
    requires
        !s.contains('\n'),
    ensures
        is_plain(crate::text::trim_end_spec(s)),
    decreases s.len(),
{
    if s.len() > 0 && crate::text::is_space_spec(s.last()) {
        assert forall|c: char| s.drop_last().contains(c) implies s.contains(c) by {
            let i = choose|i: int| 0 <= i < s.drop_last().len() && s.drop_last()[i] == c;
            assert(s[i] == c);
        }
        trimmed_is_plain(s.drop_last());
    }
}

proof fn texts_are_plain(comments: Seq<CommentView>, from: int, to: int)
    requires
        on_one_line(comments),
        0 <= from <= to <= comments.len(),
    ensures
        all_plain(texts_between(comments, from, to)),
{
    let ts = texts_between(comments, from, to);
    assert forall|k: int| 0 <= k < ts.len() implies is_plain(#[trigger] ts[k]) by {
        assert(!comments[from + k].text.contains('\n'));
        trimmed_is_plain(comments[from + k].text);
    }
}

/// The page `a` is the page `b`, up to white space, with the comments from the
/// one at `from` up to its cursor woven in.
#[verifier::opaque]
pub open spec fn weaves(a: SheetView, b: SheetView, comments: Seq<CommentView>, from: int) -> bool {
    &&& on_one_line(comments)
    &&& 0 <= b.cursor
    &&& 0 <= from <= a.cursor <= comments.len()
    &&& woven(a.out, ink(b.out), texts_between(comments, from, a.cursor))
}

/// The same text is written on both pages.
pub broadcast proof fn weaves_written(
    a: SheetView,
    b: SheetView,
    s: Seq<char>,
    comments: Seq<CommentView>,
    from: int,
)
    requires
        weaves(a, b, comments, from),
    ensures
        #![trigger weaves(a, b, comments, from), write_text_spec(a, s), write_text_spec(b, s)]
        weaves(write_text_spec(a, s), write_text_spec(b, s), comments, from),
{
    reveal(weaves);
    woven_before(a.out, s, ink(b.out), texts_between(comments, from, a.cursor));
    ink_joined(b.out, s);
}

/// White space is written on the first page only.
pub proof fn weaves_blank(
    a: SheetView,
    b: SheetView,
    s: Seq<char>,
    comments: Seq<CommentView>,
    from: int,
)
    requires
        weaves(a, b, comments, from),
        ink(s).len() == 0,
    ensures
        weaves(write_text_spec(a, s), b, comments, from),
{
    reveal(weaves);
    woven_before(a.out, s, ink(b.out), texts_between(comments, from, a.cursor));
    assert(ink(b.out) + ink(s) =~= ink(b.out));
}

/// The next comment is placed on the first page.
pub proof fn weaves_placed(
    a: SheetView,
    b: SheetView,
    pad: Seq<char>,
    end: Seq<char>,
    comments: Seq<CommentView>,
    from: int,
)
    requires
        weaves(a, b, comments, from),
        a.cursor < comments.len(),
        ink(pad).len() == 0,
        ink(end).len() == 0,
    ensures
        weaves(
            (SheetView { out: a.out + pad + comment_text_spec(comments[a.cursor]) + end, cursor: a.cursor + 1 }),
            b,
            comments,
            from,
        ),
{
    reveal(weaves);
    let ts = texts_between(comments, from, a.cursor);
    let t = comment_text_spec(comments[a.cursor]);
    woven_added(a.out, ink(b.out), ts, pad, t, end);
    assert(texts_between(comments, from, a.cursor + 1) =~= ts.push(t));
}

/// A line break is taken off the end of the first page.
pub proof fn weaves_unbroken(a: SheetView, b: SheetView, comments: Seq<CommentView>, from: int)
    requires
        weaves(a, b, comments, from),
        a.out.len() > 0,
        a.out.last() == '\n',
    ensures
        weaves((SheetView { out: a.out.drop_last(), cursor: a.cursor }), b, comments, from),
{
    reveal(weaves);
    let ts = texts_between(comments, from, a.cursor);
    texts_are_plain(comments, from, a.cursor);
    assert forall|k: int| 0 <= k < ts.len() && (#[trigger] ts[k]).len() > 0 implies ts[k].last()
        != a.out.last() by {
        assert(is_plain(ts[k]));
        assert(ts[k].contains(ts[k].last()));
    }
    woven_without_last(a.out, ink(b.out), ts);
}

/// What was written apart is moved in on both pages.
pub proof fn weaves_moved_in(
    a: SheetView,
    b: SheetView,
    c: SheetView,
    d: SheetView,
    comments: Seq<CommentView>,
    from: int,
)
    requires
        weaves(a, b, comments, from),
        weaves(c, d, comments, a.cursor),
    ensures
        weaves(
            (SheetView { out: a.out + indent_lines_spec(c.out), cursor: c.cursor }),
            (SheetView { out: b.out + indent_lines_spec(d.out), cursor: d.cursor }),
            comments,
            from,
        ),
{
    reveal(weaves);
    let ts = texts_between(comments, from, a.cursor);
    let us = texts_between(comments, a.cursor, c.cursor);
    let none = Seq::<Seq<char>>::empty();
    texts_are_plain(comments, a.cursor, c.cursor);
    woven_indented(c.out, ink(d.out), us);
    woven_indented(d.out, ink(d.out), none);
    woven_joined(a.out, ink(b.out), ts, indent_lines_spec(c.out), ink(d.out), us);
    ink_joined(b.out, indent_lines_spec(d.out));
    assert(ts + us =~= texts_between(comments, from, c.cursor));
}

/// Two empty pages.
pub proof fn weaves_nothing(cursor: int, other: int, comments: Seq<CommentView>)
    requires
        on_one_line(comments),
        0 <= other,
        0 <= cursor <= comments.len(),
    ensures
        weaves(
            (SheetView { out: Seq::empty(), cursor }),
            (SheetView { out: Seq::empty(), cursor: other }),
            comments,
            cursor,
        ),
{
    reveal(weaves);
    assert(texts_between(comments, cursor, cursor).len() == 0);
}

pub broadcast group group_sheet_views {
    items_view_push,
    items_view_empty,
    items_view_add,
    items_view_subrange,
    items_view_update,
}

} // verus!
