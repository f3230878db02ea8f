use intentc::ast::{
    BinaryOp, Comment, ConstDecl, EnumDecl, Expr, ExprKind, FieldDecl, FloatLit, Function,
    ImplDecl, IntentDecl, InterfaceDecl, InterfaceMethod, MatchArm, MethodsBlock, Param, Pattern,
    PrintItem, Program, Reduction, ReductionOp, Span, Stmt, StructDecl, Type, TypeAlias, UnaryOp,
    UseDecl, VariantDecl, WhereClause,
};
use intentc::checker::{check, CheckOutcome, CheckedProgram};
use intentc::diagnostic::Diagnostic;
use intentc::format::{format_expr, format_program, format_program_with_comments};
use intentc::ir::{TypedConst, TypedExprKind, TypedStmt};
use intentc::state::{Answer, FloatOp, Query, Verdict};

// ---- reading source text

#[derive(Clone, Debug, PartialEq)]
enum Tok {
    Id(String),
    Int(i128),
    Float(f64),
    Str(String),
    Op(&'static str),
    End,
}

const OPS: [&str; 38] = [
    "->", "==", "!=", "<=", ">=", "<<", ">>", "&&", "||", "..", "+", "-", "*", "/", "%", "<", ">",
    "=", "!", "&", "|", "^", "(", ")", "{", "}", "[", "]", ",", ";", ":", ".", "_", "#", "@", "?",
    "~", "$",
];

fn lex(src: &str) -> Vec<(Tok, Span)> {
    let b = src.as_bytes();
    let mut out = Vec::new();
    let mut i: usize = 0;
    while i < b.len() {
        let c = b[i];
        if c == b' ' || c == b'\n' || c == b'\t' || c == b'\r' {
            i += 1;
        } else if c == b'/' && i + 1 < b.len() && b[i + 1] == b'/' {
            while i < b.len() && b[i] != b'\n' {
                i += 1;
            }
        } else if c.is_ascii_alphabetic() || (c == b'_' && i + 1 < b.len() && (b[i + 1].is_ascii_alphanumeric() || b[i + 1] == b'_')) {
            let s = i;
            while i < b.len() && (b[i].is_ascii_alphanumeric() || b[i] == b'_') {
                i += 1;
            }
            out.push((Tok::Id(src[s..i].to_string()), Span::new(s, i)));
        } else if c.is_ascii_digit() {
            let s = i;
            while i < b.len() && b[i].is_ascii_digit() {
                i += 1;
            }
            let after_dot = matches!(out.last(), Some((Tok::Op("."), _)));
            if !after_dot && i + 1 < b.len() && b[i] == b'.' && b[i + 1].is_ascii_digit() {
                i += 1;
                while i < b.len() && (b[i].is_ascii_digit() || b[i] == b'e' || b[i] == b'-' && b[i - 1] == b'e') {
                    i += 1;
                }
                out.push((Tok::Float(src[s..i].parse().unwrap()), Span::new(s, i)));
            } else {
                out.push((Tok::Int(src[s..i].parse().unwrap()), Span::new(s, i)));
            }
        } else if c == b'"' {
            let s = i;
            i += 1;
            let mut bytes: Vec<u8> = Vec::new();
            while b[i] != b'"' {
                if b[i] == b'\\' {
                    i += 1;
                    bytes.push(match b[i] {
                        b'n' => b'\n',
                        b't' => b'\t',
                        b'r' => b'\r',
                        b'0' => 0,
                        other => other,
                    });
                } else {
                    bytes.push(b[i]);
                }
                i += 1;
            }
            i += 1;
            out.push((Tok::Str(String::from_utf8(bytes).unwrap()), Span::new(s, i)));
        } else {
            let mut found = false;
            for op in OPS {
                if !found && src[i..].starts_with(op) {
                    out.push((Tok::Op(op), Span::new(i, i + op.len())));
                    i += op.len();
                    found = true;
                }
            }
            assert!(found, "unexpected character in {src:?} at {i}");
        }
    }
    out.push((Tok::End, Span::new(src.len(), src.len())));
    out
}

fn extract_comments(src: &str) -> Vec<Comment> {
    let b = src.as_bytes();
    let mut out = Vec::new();
    let mut i: usize = 0;
    while i < b.len() {
        if b[i] == b'"' {
            i += 1;
            while i < b.len() && b[i] != b'"' {
                if b[i] == b'\\' {
                    i += 1;
                }
                i += 1;
            }
            i += 1;
        } else if b[i] == b'/' && i + 1 < b.len() && b[i + 1] == b'/' {
            let s = i;
            while i < b.len() && b[i] != b'\n' {
                i += 1;
            }
            out.push(Comment { span: Span::new(s, i), text: src[s..i].to_string() });
        } else {
            i += 1;
        }
    }
    out
}

struct Parser {
    toks: Vec<(Tok, Span)>,
    i: usize,
}

fn float_lit(v: f64) -> FloatLit {
    FloatLit { bits: v.to_bits(), exact: format!("{:?}", v), plain: format!("{}", v) }
}

impl Parser {
    fn peek(&self) -> &Tok {
        &self.toks[self.i].0
    }

    fn ahead(&self, n: usize) -> &Tok {
        let k = if self.i + n < self.toks.len() { self.i + n } else { self.toks.len() - 1 };
        &self.toks[k].0
    }

    fn at(&self) -> Span {
        self.toks[self.i].1
    }

    fn last_end(&self) -> usize {
        self.toks[self.i - 1].1.end
    }

    fn is(&self, op: &str) -> bool {
        matches!(self.peek(), Tok::Op(o) if *o == op)
    }

    fn is_word(&self, w: &str) -> bool {
        matches!(self.peek(), Tok::Id(o) if o == w)
    }

    fn eat(&mut self, op: &str) -> bool {
        let yes = self.is(op);
        if yes {
            self.i += 1;
        }
        yes
    }

    fn eat_word(&mut self, w: &str) -> bool {
        let yes = self.is_word(w);
        if yes {
            self.i += 1;
        }
        yes
    }

    fn need(&mut self, op: &str) {
        assert!(self.eat(op), "expected {op:?}, got {:?} at {:?}", self.peek(), self.at());
    }

    fn need_word(&mut self, w: &str) {
        assert!(self.eat_word(w), "expected {w:?}, got {:?} at {:?}", self.peek(), self.at());
    }

    fn name(&mut self) -> String {
        match self.peek().clone() {
            Tok::Id(n) => {
                self.i += 1;
                n
            }
            Tok::Op("_") => {
                self.i += 1;
                "_".to_string()
            }
            other => panic!("expected a name, got {other:?} at {:?}", self.at()),
        }
    }

    fn string(&mut self) -> String {
        match self.peek().clone() {
            Tok::Str(s) => {
                self.i += 1;
                s
            }
            other => panic!("expected a string, got {other:?}"),
        }
    }

    fn number(&mut self) -> i128 {
        match self.peek().clone() {
            Tok::Int(v) => {
                self.i += 1;
                v
            }
            other => panic!("expected a number, got {other:?}"),
        }
    }

    fn span_from(&self, start: usize) -> Span {
        Span::new(start, self.last_end())
    }

    fn ty(&mut self) -> Type {
        if self.eat("[") {
            let element = Box::new(self.ty());
            self.need(";");
            let length = self.number() as u64;
            self.need("]");
            return Type::Array { element, length };
        }
        if self.eat("(") {
            let mut ts = vec![self.ty()];
            while self.eat(",") {
                ts.push(self.ty());
            }
            self.need(")");
            return Type::Tuple(ts);
        }
        let n = self.name();
        match n.as_str() {
            "i8" => Type::I8,
            "i16" => Type::I16,
            "i32" => Type::I32,
            "i64" => Type::I64,
            "u8" => Type::U8,
            "u16" => Type::U16,
            "u32" => Type::U32,
            "u64" => Type::U64,
            "f32" => Type::F32,
            "f64" => Type::F64,
            "bool" => Type::Bool,
            "Str" => Type::Str,
            "OwnedStr" => Type::OwnedStr,
            "Task" => Type::Task,
            "Vec" => Type::Vec(Box::new(self.inner_type())),
            "Atomic" => Type::Atomic(Box::new(self.inner_type())),
            "Mutex" => Type::Mutex(Box::new(self.inner_type())),
            "Guard" => Type::Guard(Box::new(self.inner_type())),
            "Channel" => {
                self.need("<");
                let t = self.ty();
                self.need(",");
                let n = self.number() as u64;
                self.need(">");
                Type::Channel(Box::new(t), n)
            }
            "ref" => Type::Ref(Box::new(self.ty())),
            "mut" => {
                self.need_word("ref");
                Type::RefMut(Box::new(self.ty()))
            }
            "fn" => {
                self.need("(");
                let mut ps = Vec::new();
                while !self.is(")") {
                    ps.push(self.ty());
                    self.eat(",");
                }
                self.need(")");
                self.need("->");
                Type::FnPtr(ps, Box::new(self.ty()))
            }
            _ => Type::Struct(n),
        }
    }

    fn inner_type(&mut self) -> Type {
        self.need("<");
        let t = self.ty();
        if self.is(">>") {
            let (_, s) = self.toks[self.i].clone();
            self.toks[self.i] = (Tok::Op(">"), Span::new(s.start + 1, s.end));
        } else {
            self.need(">");
        }
        t
    }

    fn program(&mut self) -> Program {
        let mut p = Program {
            intents: Vec::new(),
            functions: Vec::new(),
            uses: Vec::new(),
            structs: Vec::new(),
            enums: Vec::new(),
            interfaces: Vec::new(),
            impls: Vec::new(),
            consts: Vec::new(),
            type_aliases: Vec::new(),
            methods_blocks: Vec::new(),
        };
        while *self.peek() != Tok::End {
            let start = self.at().start;
            if self.eat_word("use") {
                let path = self.string();
                self.need(";");
                p.uses.push(UseDecl { path, span: self.span_from(start) });
            } else if self.eat_word("intent") {
                let text = self.string();
                self.need(";");
                p.intents.push(IntentDecl { text, span: self.span_from(start) });
            } else if self.eat_word("struct") {
                let name_span = self.at();
                let name = self.name();
                self.need("{");
                let mut fields = Vec::new();
                while !self.eat("}") {
                    let s = self.at().start;
                    let name = self.name();
                    self.need(":");
                    let ty = self.ty();
                    fields.push(FieldDecl { name, ty, span: self.span_from(s) });
                    self.eat(",");
                }
                p.structs.push(StructDecl { name, name_span, fields, span: self.span_from(start) });
            } else if self.eat_word("enum") {
                let name_span = self.at();
                let name = self.name();
                self.need("{");
                let mut variants = Vec::new();
                while !self.eat("}") {
                    let name_span = self.at();
                    let name = self.name();
                    let mut payload = Vec::new();
                    if self.eat("(") {
                        while !self.eat(")") {
                            payload.push(self.ty());
                            self.eat(",");
                        }
                    }
                    variants.push(VariantDecl { name, name_span, payload });
                    self.eat(",");
                }
                p.enums.push(EnumDecl { name, name_span, variants, span: self.span_from(start) });
            } else if self.eat_word("interface") {
                let name_span = self.at();
                let name = self.name();
                self.need("{");
                let mut methods = Vec::new();
                while !self.eat("}") {
                    let s = self.at().start;
                    self.need_word("fn");
                    let name_span = self.at();
                    let name = self.name();
                    let params = self.params();
                    self.need("->");
                    let return_type = self.ty();
                    self.need(";");
                    methods.push(InterfaceMethod { name, name_span, params, return_type, span: self.span_from(s) });
                }
                p.interfaces.push(InterfaceDecl { name, name_span, methods, span: self.span_from(start) });
            } else if self.eat_word("implement") {
                let interface_name = self.name();
                self.need_word("for");
                let for_type = self.ty();
                self.need("{");
                let mut methods = Vec::new();
                while !self.eat("}") {
                    methods.push(self.function());
                }
                p.impls.push(ImplDecl { interface_name, for_type, methods, span: self.span_from(start) });
            } else if self.eat_word("methods") {
                self.need_word("on");
                let for_type_span = self.at();
                let for_type = self.ty();
                self.need("{");
                let mut methods = Vec::new();
                while !self.eat("}") {
                    methods.push(self.function());
                }
                p.methods_blocks.push(MethodsBlock { for_type, for_type_span, methods, span: self.span_from(start) });
            } else if self.eat_word("const") {
                let name_span = self.at();
                let name = self.name();
                self.need(":");
                let ty = self.ty();
                self.need("=");
                let value = self.expr();
                self.need(";");
                p.consts.push(ConstDecl { name, name_span, ty, value, span: self.span_from(start) });
            } else if self.eat_word("type") {
                let name_span = self.at();
                let name = self.name();
                self.need("=");
                let target = self.ty();
                self.need(";");
                p.type_aliases.push(TypeAlias { name, name_span, target, span: self.span_from(start) });
            } else {
                let f = self.function();
                p.functions.push(f);
            }
        }
        p
    }

    fn params(&mut self) -> Vec<Param> {
        self.need("(");
        let mut out = Vec::new();
        while !self.eat(")") {
            let name_span = self.at();
            let name = self.name();
            self.need(":");
            let ty = self.ty();
            out.push(Param { name, name_span, ty, span: self.span_from(name_span.start) });
            self.eat(",");
        }
        out
    }

    fn function(&mut self) -> Function {
        let start = self.at().start;
        let is_pure = self.eat_word("pure");
        self.need_word("fn");
        let name = self.name();
        let mut type_params = Vec::new();
        if self.eat("<") {
            while !self.eat(">") {
                type_params.push(self.name());
                self.eat(",");
            }
        }
        let mut params = self.params();
        self.need("->");
        let mut return_type = self.ty();
        let mut where_clauses = Vec::new();
        if self.eat_word("where") {
            let mut more = true;
            while more {
                let s = self.at().start;
                let type_param = self.name();
                self.need_word("is");
                let interface_name = self.name();
                where_clauses.push(WhereClause { type_param, interface_name, span: self.span_from(s) });
                more = self.eat(",");
            }
        }
        let mut requires = Vec::new();
        let mut ensures = Vec::new();
        while self.is_word("requires") || self.is_word("ensures") {
            let to_requires = self.eat_word("requires");
            if !to_requires {
                self.need_word("ensures");
            }
            let e = self.expr();
            self.need(";");
            if to_requires {
                requires.push(e);
            } else {
                ensures.push(e);
            }
        }
        let body = self.block();
        for tp in &type_params {
            for p in &mut params {
                mark_param(&mut p.ty, tp);
            }
            mark_param(&mut return_type, tp);
        }
        Function {
            name,
            type_params,
            params,
            return_type,
            where_clauses,
            requires,
            ensures,
            body,
            is_pure,
            span: self.span_from(start),
        }
    }

    fn block(&mut self) -> Vec<Stmt> {
        self.need("{");
        let mut out = Vec::new();
        while !self.eat("}") {
            out.push(self.stmt());
        }
        out
    }

    fn invariants(&mut self) -> Vec<Expr> {
        let mut out = Vec::new();
        while self.eat_word("invariant") {
            out.push(self.expr());
            self.need(";");
        }
        out
    }

    fn stmt(&mut self) -> Stmt {
        let start = self.at().start;
        if self.eat_word("let") {
            if self.eat("(") {
                let mut names = Vec::new();
                while !self.eat(")") {
                    names.push(self.name());
                    self.eat(",");
                }
                let annotation = if self.eat(":") { Some(self.ty()) } else { None };
                self.need("=");
                let expr = self.expr();
                self.need(";");
                return Stmt::LetTuple { names, annotation, expr, span: self.span_from(start) };
            }
            let name = self.name();
            let annotation = if self.eat(":") { Some(self.ty()) } else { None };
            self.need("=");
            let expr = self.expr();
            self.need(";");
            return Stmt::Let { name, annotation, expr, span: self.span_from(start) };
        }
        if self.eat_word("return") {
            let expr = self.expr();
            self.need(";");
            return Stmt::Return { expr, span: self.span_from(start) };
        }
        if self.eat_word("assert") {
            let expr = self.expr();
            let message = if self.eat(",") { Some(self.string()) } else { None };
            self.need(";");
            return Stmt::Assert { expr, message, span: self.span_from(start) };
        }
        if self.eat_word("prove") {
            let expr = self.expr();
            self.need(";");
            return Stmt::Prove { expr, span: self.span_from(start) };
        }
        if self.eat_word("print") {
            let mut items = Vec::new();
            let mut more = true;
            while more {
                if let Tok::Str(s) = self.peek().clone() {
                    self.i += 1;
                    items.push(PrintItem::Str(s));
                } else {
                    items.push(PrintItem::Expr(self.expr()));
                }
                more = self.eat(",");
            }
            self.need(";");
            return Stmt::Print { items, span: self.span_from(start) };
        }
        if self.eat_word("if") {
            let cond = self.condition();
            let then_body = self.block();
            let else_body = if self.eat_word("else") {
                if self.is_word("if") {
                    vec![self.stmt()]
                } else {
                    self.block()
                }
            } else {
                Vec::new()
            };
            return Stmt::If { cond, then_body, else_body, span: self.span_from(start) };
        }
        if self.eat_word("while") {
            let cond = self.condition();
            let invariants = self.invariants();
            let body = self.block();
            return Stmt::While { cond, invariants, body, span: self.span_from(start) };
        }
        if self.eat_word("break") {
            self.need(";");
            return Stmt::Break { span: self.span_from(start) };
        }
        if self.eat_word("continue") {
            self.need(";");
            return Stmt::Continue { span: self.span_from(start) };
        }
        if self.is_word("parallel") || self.is_word("for") {
            let parallel = self.eat_word("parallel");
            self.need_word("for");
            let var = self.name();
            if self.eat_word("in") {
                let consumes = !self.eat_word("ref");
                let collection = self.name();
                let body = self.block();
                return Stmt::ForIter { var, collection, consumes, body, span: self.span_from(start) };
            }
            self.need_word("from");
            let from = self.condition();
            self.need_word("to");
            let end = self.condition();
            let invariants = self.invariants();
            let mut reductions = Vec::new();
            while self.is_word("reduce") {
                let s = self.at().start;
                self.need_word("reduce");
                let var = self.name();
                self.need_word("with");
                let op = self.reduction();
                self.need(";");
                reductions.push(Reduction { var, op, span: self.span_from(s) });
            }
            let body = self.block();
            return Stmt::For {
                var,
                start: from,
                end,
                invariants,
                body,
                span: self.span_from(start),
                parallel,
                reductions,
            };
        }
        if self.is_word("task") && matches!(self.ahead(1), Tok::Id(_)) {
            self.need_word("task");
            let name = self.name();
            let body = self.block();
            return Stmt::TaskSpawn { name, body, span: self.span_from(start) };
        }
        if self.is_word("join") && matches!(self.ahead(1), Tok::Id(_)) {
            self.need_word("join");
            let name = self.name();
            self.need(";");
            return Stmt::TaskJoin { name, span: self.span_from(start) };
        }
        let e = self.expr();
        if self.eat("=") {
            let value = self.expr();
            self.need(";");
            let span = self.span_from(start);
            let espan = e.span;
            return match e.kind {
                ExprKind::Var(name) => Stmt::Assign { name, expr: value, span },
                ExprKind::Index { array, index } => match array.kind {
                    ExprKind::Var(name) => {
                        Stmt::IndexAssign { name, index: *index, field_path: Vec::new(), value, span }
                    }
                    _ => panic!("unsupported place"),
                },
                ExprKind::FieldAccess { object, field } => {
                    let mut path = vec![field.clone()];
                    let mut base = *object;
                    loop {
                        match base.kind {
                            ExprKind::FieldAccess { object, field } => {
                                path.insert(0, field);
                                base = *object;
                            }
                            ExprKind::Index { array, index } => {
                                return match array.kind {
                                    ExprKind::Var(name) => {
                                        Stmt::IndexAssign { name, index: *index, field_path: path, value, span }
                                    }
                                    _ => panic!("unsupported place"),
                                };
                            }
                            kind => {
                                base = Expr { kind, span: base.span };
                                break;
                            }
                        }
                    }
                    let last = path.pop().unwrap();
                    for f in path {
                        let span = base.span;
                        base = Expr { kind: ExprKind::FieldAccess { object: Box::new(base), field: f }, span };
                    }
                    let field_span = Span::new(espan.end - last.len(), espan.end);
                    Stmt::FieldAssign { object: base, field: last, field_span, value, span }
                }
                _ => panic!("unsupported place"),
            };
        }
        self.need(";");
        Stmt::Let { name: "_".to_string(), annotation: None, expr: e, span: self.span_from(start) }
    }

    fn reduction(&mut self) -> ReductionOp {
        let t = self.peek().clone();
        self.i += 1;
        match t {
            Tok::Op("+") => ReductionOp::Add,
            Tok::Op("*") => ReductionOp::Mul,
            Tok::Op("&&") => ReductionOp::And,
            Tok::Op("||") => ReductionOp::Or,
            Tok::Op("&") => ReductionOp::BitAnd,
            Tok::Op("|") => ReductionOp::BitOr,
            Tok::Op("^") => ReductionOp::BitXor,
            Tok::Id(w) if w == "min" => ReductionOp::Min,
            Tok::Id(w) if w == "max" => ReductionOp::Max,
            other => panic!("unknown reduction {other:?}"),
        }
    }

    fn expr(&mut self) -> Expr {
        self.binary(0, true)
    }

    fn condition(&mut self) -> Expr {
        self.binary(0, false)
    }

    fn binary(&mut self, level: usize, lits: bool) -> Expr {
        const LEVELS: [&[(&str, BinaryOp)]; 9] = [
            &[("||", BinaryOp::Or)],
            &[("&&", BinaryOp::And)],
            &[("|", BinaryOp::BitOr)],
            &[("^", BinaryOp::BitXor)],
            &[("&", BinaryOp::BitAnd)],
            &[
                ("==", BinaryOp::Eq),
                ("!=", BinaryOp::Ne),
                ("<", BinaryOp::Lt),
                ("<=", BinaryOp::Le),
                (">", BinaryOp::Gt),
                (">=", BinaryOp::Ge),
            ],
            &[("<<", BinaryOp::Shl), (">>", BinaryOp::Shr)],
            &[("+", BinaryOp::Add), ("-", BinaryOp::Sub)],
            &[("*", BinaryOp::Mul), ("/", BinaryOp::Div), ("%", BinaryOp::Rem)],
        ];
        if level == LEVELS.len() {
            return self.cast(lits);
        }
        let mut left = self.binary(level + 1, lits);
        loop {
            let mut found = None;
            for (text, op) in LEVELS[level] {
                if self.is(text) {
                    found = Some(*op);
                }
            }
            match found {
                Some(op) => {
                    self.i += 1;
                    let right = self.binary(level + 1, lits);
                    let span = Span::new(left.span.start, right.span.end);
                    left = Expr {
                        kind: ExprKind::Binary { op, left: Box::new(left), right: Box::new(right) },
                        span,
                    };
                }
                None => return left,
            }
        }
    }

    fn cast(&mut self, lits: bool) -> Expr {
        let mut e = self.unary(lits);
        while self.eat_word("as") {
            let ty = self.ty();
            let span = self.span_from(e.span.start);
            e = Expr { kind: ExprKind::Cast { expr: Box::new(e), ty }, span };
        }
        e
    }

    fn unary(&mut self, lits: bool) -> Expr {
        let start = self.at().start;
        if self.eat("-") {
            let inner = self.unary(lits);
            let span = self.span_from(start);
            return Expr { kind: ExprKind::Unary { op: UnaryOp::Neg, expr: Box::new(inner) }, span };
        }
        if self.eat("!") {
            let inner = self.unary(lits);
            let span = self.span_from(start);
            return Expr { kind: ExprKind::Unary { op: UnaryOp::Not, expr: Box::new(inner) }, span };
        }
        if self.eat_word("ref") {
            let inner = self.unary(lits);
            let span = self.span_from(start);
            return Expr { kind: ExprKind::Ref { inner: Box::new(inner) }, span };
        }
        if self.is_word("mut") {
            self.need_word("mut");
            self.need_word("ref");
            let inner = self.unary(lits);
            let span = self.span_from(start);
            return Expr { kind: ExprKind::RefMut { inner: Box::new(inner) }, span };
        }
        if self.eat_word("try") {
            let inner = self.unary(lits);
            let span = self.span_from(start);
            return Expr { kind: ExprKind::Try { inner: Box::new(inner) }, span };
        }
        self.postfix(lits)
    }

    fn args(&mut self) -> Vec<Expr> {
        self.need("(");
        let mut out = Vec::new();
        while !self.eat(")") {
            out.push(self.expr());
            self.eat(",");
        }
        out
    }

    fn postfix(&mut self, lits: bool) -> Expr {
        let start = self.at().start;
        let mut e = self.primary(lits);
        loop {
            if self.eat("[") {
                let index = Box::new(self.expr());
                self.need("]");
                e = Expr { kind: ExprKind::Index { array: Box::new(e), index }, span: self.span_from(start) };
            } else if self.is(".") {
                self.need(".");
                if let Tok::Int(v) = self.peek().clone() {
                    self.i += 1;
                    e = Expr {
                        kind: ExprKind::TupleAccess { tuple: Box::new(e), index: v as u32 },
                        span: self.span_from(start),
                    };
                } else {
                    let method_span = self.at();
                    let n = self.name();
                    if self.is("(") {
                        let args = self.args();
                        e = Expr {
                            kind: ExprKind::MethodCall { receiver: Box::new(e), method: n, method_span, args },
                            span: self.span_from(start),
                        };
                    } else {
                        e = Expr {
                            kind: ExprKind::FieldAccess { object: Box::new(e), field: n },
                            span: self.span_from(start),
                        };
                    }
                }
            } else {
                return e;
            }
        }
    }

    fn pattern(&mut self) -> Pattern {
        if self.eat("_") {
            return Pattern::Wildcard;
        }
        if self.eat("-") {
            return Pattern::Int(-self.number());
        }
        match self.peek().clone() {
            Tok::Int(v) => {
                self.i += 1;
                Pattern::Int(v)
            }
            Tok::Str(s) => {
                self.i += 1;
                Pattern::Str(s)
            }
            _ => {
                if self.eat_word("true") {
                    return Pattern::Bool(true);
                }
                if self.eat_word("false") {
                    return Pattern::Bool(false);
                }
                let enum_name = self.name();
                self.need(".");
                let variant = self.name();
                if self.eat("(") {
                    let binding = self.name();
                    self.need(")");
                    Pattern::VariantWithBinding { enum_name, variant, binding }
                } else {
                    Pattern::Variant { enum_name, variant }
                }
            }
        }
    }

    fn value_block(&mut self) -> Expr {
        self.need("{");
        let e = self.expr();
        self.need("}");
        e
    }

    fn if_value(&mut self, start: usize) -> Expr {
        let cond = Box::new(self.condition());
        let then_value = Box::new(self.value_block());
        self.need_word("else");
        let s = self.at().start;
        let else_value = if self.eat_word("if") { self.if_value(s) } else { self.value_block() };
        Expr {
            kind: ExprKind::IfExpr { cond, then_value, else_value: Box::new(else_value) },
            span: self.span_from(start),
        }
    }

    fn primary(&mut self, lits: bool) -> Expr {
        let start = self.at().start;
        let tok = self.peek().clone();
        self.i += 1;
        match tok {
            Tok::Int(v) => Expr { kind: ExprKind::Int(v), span: self.span_from(start) },
            Tok::Float(v) => Expr { kind: ExprKind::Float(float_lit(v)), span: self.span_from(start) },
            Tok::Str(s) => Expr { kind: ExprKind::Str(s), span: self.span_from(start) },
            Tok::Op("(") => {
                let first = self.expr();
                if self.is(",") {
                    let mut es = vec![first];
                    while self.eat(",") {
                        es.push(self.expr());
                    }
                    self.need(")");
                    return Expr { kind: ExprKind::Tuple(es), span: self.span_from(start) };
                }
                self.need(")");
                first
            }
            Tok::Op("[") => {
                let mut elements = Vec::new();
                while !self.eat("]") {
                    elements.push(self.expr());
                    self.eat(",");
                }
                Expr { kind: ExprKind::ArrayLit { elements }, span: self.span_from(start) }
            }
            Tok::Op("{") => {
                let mut stmts = Vec::new();
                while self.is_word("let") || self.is_word("print") {
                    stmts.push(self.stmt());
                }
                let tail = Box::new(self.expr());
                self.need("}");
                Expr { kind: ExprKind::Block { stmts, tail }, span: self.span_from(start) }
            }
            Tok::Id(n) => match n.as_str() {
                "true" => Expr { kind: ExprKind::Bool(true), span: self.span_from(start) },
                "false" => Expr { kind: ExprKind::Bool(false), span: self.span_from(start) },
                "len" if self.is("(") => {
                    let mut args = self.args();
                    let array = Box::new(args.remove(0));
                    Expr { kind: ExprKind::Len { array }, span: self.span_from(start) }
                }
                "if" => self.if_value(start),
                "match" => {
                    let scrutinee = Box::new(self.condition());
                    self.need("{");
                    let mut arms = Vec::new();
                    while !self.eat("}") {
                        let s = self.at().start;
                        let pattern = self.pattern();
                        let pattern_span = self.span_from(s);
                        self.need_word("then");
                        let body = self.expr();
                        arms.push(MatchArm { pattern, pattern_span, body });
                        self.eat(",");
                    }
                    Expr { kind: ExprKind::Match { scrutinee, arms }, span: self.span_from(start) }
                }
                _ => {
                    let name_span = Span::new(start, self.last_end());
                    if self.is("(") {
                        let args = self.args();
                        return Expr { kind: ExprKind::Call { name: n, name_span, args }, span: self.span_from(start) };
                    }
                    let literal = lits && self.is("{") && n.as_bytes()[0].is_ascii_uppercase();
                    if literal {
                        self.need("{");
                        let mut fields = Vec::new();
                        while !self.eat("}") {
                            let f = self.name();
                            self.need(":");
                            fields.push((f, self.expr()));
                            self.eat(",");
                        }
                        return Expr {
                            kind: ExprKind::StructLit { struct_name: n, struct_name_span: name_span, fields },
                            span: self.span_from(start),
                        };
                    }
                    Expr { kind: ExprKind::Var(n), span: self.span_from(start) }
                }
            },
            other => panic!("unexpected {other:?} at {start}"),
        }
    }
}

fn mark_param(t: &mut Type, name: &str) {
    let hit = matches!(t, Type::Struct(n) if n == name);
    if hit {
        *t = Type::Param(name.to_string());
        return;
    }
    match t {
        Type::Vec(i) | Type::Ref(i) | Type::RefMut(i) | Type::Atomic(i) | Type::Mutex(i) | Type::Guard(i) => {
            mark_param(i, name)
        }
        Type::Array { element, .. } => mark_param(element, name),
        Type::Channel(i, _) => mark_param(i, name),
        Type::Tuple(ts) => {
            for t in ts {
                mark_param(t, name);
            }
        }
        Type::FnPtr(ts, r) => {
            for t in ts {
                mark_param(t, name);
            }
            mark_param(r, name);
        }
        _ => {}
    }
}

fn parse(src: &str) -> Program {
    let mut p = Parser { toks: lex(src), i: 0 };
    p.program()
}

// ---- comparing programs without their places

fn zero() -> Span {
    Span::new(0, 0)
}

fn zero_function(f: &mut Function) {
    f.span = zero();
    for w in &mut f.where_clauses {
        w.span = zero();
    }
    for p in &mut f.params {
        p.span = zero();
        p.name_span = zero();
    }
    for e in &mut f.requires {
        zero_expr(e);
    }
    for e in &mut f.ensures {
        zero_expr(e);
    }
    zero_stmts(&mut f.body);
}

fn strip_spans(p: &Program) -> String {
    let mut out = p.dup();
    for u in &mut out.uses {
        u.span = zero();
    }
    for i in &mut out.intents {
        i.span = zero();
    }
    for f in &mut out.functions {
        zero_function(f);
    }
    for s in &mut out.structs {
        s.span = zero();
        s.name_span = zero();
        for f in &mut s.fields {
            f.span = zero();
        }
    }
    for e in &mut out.enums {
        e.span = zero();
        e.name_span = zero();
        for v in &mut e.variants {
            v.name_span = zero();
        }
    }
    for ifc in &mut out.interfaces {
        ifc.span = zero();
        ifc.name_span = zero();
        for m in &mut ifc.methods {
            m.span = zero();
            m.name_span = zero();
            for p in &mut m.params {
                p.span = zero();
                p.name_span = zero();
            }
        }
    }
    for im in &mut out.impls {
        im.span = zero();
        for m in &mut im.methods {
            zero_function(m);
        }
    }
    for c in &mut out.consts {
        c.span = zero();
        c.name_span = zero();
        zero_expr(&mut c.value);
    }
    for a in &mut out.type_aliases {
        a.span = zero();
        a.name_span = zero();
    }
    for m in &mut out.methods_blocks {
        m.span = zero();
        m.for_type_span = zero();
        for method in &mut m.methods {
            zero_function(method);
        }
    }
    format!("{:#?}", out)
}

fn round_trip(src: &str) {
    let program = parse(src);
    let formatted = format_program(&program);
    let again = parse(&formatted);
    assert_eq!(
        strip_spans(&program),
        strip_spans(&again),
        "AST changed across format round-trip:\n--- input ---\n{}\n--- formatted ---\n{}\n",
        src,
        formatted
    );
}

fn zero_expr(e: &mut Expr) {
    e.span = Span::new(0, 0);
    match &mut e.kind {
        ExprKind::Unary { expr, .. } => zero_expr(expr),
        ExprKind::Binary { left, right, .. } => {
            zero_expr(left);
            zero_expr(right);
        }
        ExprKind::Call { args, name_span, .. } => {
            *name_span = Span::new(0, 0);
            for a in args {
                zero_expr(a);
            }
        }
        ExprKind::MethodCall { receiver, method_span, args, .. } => {
            zero_expr(receiver);
            *method_span = Span::new(0, 0);
            for a in args {
                zero_expr(a);
            }
        }
        ExprKind::Cast { expr, .. } => zero_expr(expr),
        ExprKind::ArrayLit { elements } => {
            for el in elements {
                zero_expr(el);
            }
        }
        ExprKind::Index { array, index } => {
            zero_expr(array);
            zero_expr(index);
        }
        ExprKind::Len { array } => zero_expr(array),
        ExprKind::Ref { inner } | ExprKind::RefMut { inner } => zero_expr(inner),
        ExprKind::FieldAccess { object, .. } => zero_expr(object),
        ExprKind::TupleAccess { tuple, .. } => zero_expr(tuple),
        ExprKind::Tuple(elements) => {
            for e in elements {
                zero_expr(e);
            }
        }
        ExprKind::StructLit { struct_name_span, fields, .. } => {
            *struct_name_span = Span::new(0, 0);
            for (_, e) in fields {
                zero_expr(e);
            }
        }
        ExprKind::Match { scrutinee, arms } => {
            zero_expr(scrutinee);
            for arm in arms {
                arm.pattern_span = Span::new(0, 0);
                zero_expr(&mut arm.body);
            }
        }
        ExprKind::IfExpr { cond, then_value, else_value } => {
            zero_expr(cond);
            zero_expr(then_value);
            zero_expr(else_value);
        }
        _ => {}
    }
}

fn zero_stmts(ss: &mut Vec<Stmt>) {
    for s in ss {
        match s {
            Stmt::Let { expr, span, .. } => {
                zero_expr(expr);
                *span = Span::new(0, 0);
            }
            Stmt::LetTuple { expr, span, .. } => {
                zero_expr(expr);
                *span = Span::new(0, 0);
            }
            Stmt::Return { expr, span } => {
                zero_expr(expr);
                *span = Span::new(0, 0);
            }
            Stmt::Assert { expr, span, .. } => {
                zero_expr(expr);
                *span = Span::new(0, 0);
            }
            Stmt::Prove { expr, span } => {
                zero_expr(expr);
                *span = Span::new(0, 0);
            }
            Stmt::Print { items, span } => {
                for it in items {
                    if let PrintItem::Expr(e) = it {
                        zero_expr(e);
                    }
                }
                *span = Span::new(0, 0);
            }
            Stmt::If { cond, then_body, else_body, span } => {
                zero_expr(cond);
                zero_stmts(then_body);
                zero_stmts(else_body);
                *span = Span::new(0, 0);
            }
            Stmt::While { cond, invariants, body, span } => {
                zero_expr(cond);
                for e in invariants {
                    zero_expr(e);
                }
                zero_stmts(body);
                *span = Span::new(0, 0);
            }
            Stmt::Assign { expr, span, .. } => {
                zero_expr(expr);
                *span = Span::new(0, 0);
            }
            Stmt::Break { span } | Stmt::Continue { span } => {
                *span = Span::new(0, 0);
            }
            Stmt::IndexAssign { index, value, span, .. } => {
                zero_expr(index);
                zero_expr(value);
                *span = Span::new(0, 0);
            }
            Stmt::FieldAssign { object, value, field_span, span, .. } => {
                zero_expr(object);
                zero_expr(value);
                *field_span = Span::new(0, 0);
                *span = Span::new(0, 0);
            }
            Stmt::For { start, end, invariants, body, span, .. } => {
                zero_expr(start);
                zero_expr(end);
                for e in invariants {
                    zero_expr(e);
                }
                zero_stmts(body);
                *span = Span::new(0, 0);
            }
            Stmt::ForIter { body, span, .. } => {
                zero_stmts(body);
                *span = Span::new(0, 0);
            }
            Stmt::TaskSpawn { body, span, .. } => {
                zero_stmts(body);
                *span = Span::new(0, 0);
            }
            Stmt::TaskJoin { span, .. } => {
                *span = Span::new(0, 0);
            }
        }
    }
}

fn fmt_with_comments(src: &str) -> String {
    let program = parse(src);
    let comments = extract_comments(src);
    format_program_with_comments(&program, src, &comments)
}

#[test]
fn preserves_leading_comment_above_function() {
    let src = "// preamble\nfn main() -> i64 { return 0; }\n";
    let out = fmt_with_comments(src);
    assert!(out.contains("// preamble\n"), "got:\n{out}");
    assert!(out.contains("fn main() -> i64"), "got:\n{out}");
}

#[test]
fn preserves_comment_between_statements() {
    let src = "fn main() -> i64 {\n  let x: i64 = 1;\n  // bumping\n  let y: i64 = x + 1;\n  return y;\n}\n";
    let out = fmt_with_comments(src);
    let first = out.find("let x: i64 = 1").expect("first let");
    let cmt = out.find("// bumping").expect("comment kept");
    let second = out.find("let y: i64 = ").expect("second let");
    assert!(first < cmt && cmt < second, "order wrong:\n{out}");
}

#[test]
fn preserves_trailing_comment_inside_function() {
    let src = "fn main() -> i64 {\n  return 0;\n  // trailing\n}\n";
    let out = fmt_with_comments(src);
    let cmt = out.find("// trailing").expect("comment kept");
    let close = out.rfind("}\n").expect("brace");
    assert!(cmt < close, "comment should be inside body:\n{out}");
    let line_start = out[..cmt].rfind('\n').map(|i| i + 1).unwrap_or(0);
    assert_eq!(&out[line_start..line_start + 2], "  ", "indent off:\n{out}");
}

#[test]
fn fmt_is_idempotent_for_simple_program_with_comments() {
    let src = "// hi\nfn main() -> i64 { return 0; }\n";
    let once = fmt_with_comments(src);
    let twice = fmt_with_comments(&once);
    assert_eq!(once, twice, "fmt should be idempotent");
}

#[test]
fn preserves_blank_line_between_comment_groups() {
    let src = "// first\n//\n// second\nfn main() -> i64 {\n  return 0;\n}\n";
    let out = fmt_with_comments(src);
    assert!(out.contains("// first\n//\n// second"), "got:\n{out}");
}

#[test]
fn preserves_blank_line_before_function() {
    let src = "// preamble\n\nfn main() -> i64 {\n  return 0;\n}\n";
    let out = fmt_with_comments(src);
    assert!(
        out.contains("// preamble\n\nfn main()"),
        "expected blank between comment and fn, got:\n{out}"
    );
}

#[test]
fn preserves_blank_line_between_statements() {
    let src = "fn main() -> i64 {\n  let x: i64 = 1;\n\n  let y: i64 = 2;\n  return x + y;\n}\n";
    let out = fmt_with_comments(src);
    assert!(
        out.contains("let x: i64 = 1;\n\n  let y"),
        "expected blank between lets, got:\n{out}"
    );
}

#[test]
fn preserves_same_line_trailing_comment() {
    let src = "fn main() -> i64 {\n  let x: i64 = 1;  // bound to one\n  return x;\n}\n";
    let out = fmt_with_comments(src);
    assert!(
        out.contains("let x: i64 = 1;  // bound to one\n"),
        "expected trailing comment on the let line, got:\n{out}"
    );
    assert!(
        !out.contains("\n  // bound to one\n"),
        "comment was wrongly promoted to leading, got:\n{out}"
    );
}

#[test]
fn formats_simple_function() {
    round_trip("fn main() -> i64 { return 42; }");
}

#[test]
fn formats_function_with_contracts() {
    round_trip(
        r#"fn f(x: i64) -> i64
        requires x > 0;
        ensures _return > 0;
        { return x + 1; }
        fn main() -> i64 { return f(1); }"#,
    );
}

#[test]
fn formats_print_with_items() {
    round_trip(r#"fn main() -> i64 { print "x=", 1, "y=", 2; return 0; }"#);
}

#[test]
fn formats_while_with_invariants() {
    round_trip(
        r#"fn main() -> i64 {
          let i: i64 = 0;
          while i < 10
          invariant i >= 0;
          invariant i <= 10;
          { i = i + 1; }
          return i;
        }"#,
    );
}

#[test]
fn formats_for_iter_borrow_and_consume() {
    round_trip(
        r#"fn main() -> i64 {
          let xs: [i64; 3] = [1, 2, 3];
          let s: i64 = 0;
          for x in ref xs { s = s + x; }
          return s;
        }"#,
    );
}

#[test]
fn formats_generic_fn_type_params() {
    round_trip("fn id<T>(x: T) -> T { return x; }");
}

#[test]
fn formats_generic_fn_multi_type_params() {
    round_trip("fn pair<A, B>(a: A, b: B) -> A { return a; }");
}

#[test]
fn formats_where_bound() {
    round_trip("fn pick<T>(x: T, y: T) -> T where T is Cmp { return x; }");
}

#[test]
fn formats_where_multi_bound() {
    round_trip(
        "fn run<A, B>(a: A, b: B) -> A where A is Cmp, B is Hash { return a; }",
    );
}

#[test]
fn formats_struct_decl_round_trip() {
    round_trip(
        r#"struct Point { x: i64, y: i64, }
fn main() -> i64 { return 0; }"#,
    );
}

#[test]
fn formats_enum_decl_payload_less_round_trip() {
    round_trip(
        r#"enum Color { Red, Green, Blue, }
fn main() -> i64 { return 0; }"#,
    );
}

#[test]
fn formats_enum_decl_with_payload_round_trip() {
    round_trip(
        r#"enum Maybe { Some(i64), None, }
fn main() -> i64 { return 0; }"#,
    );
}

#[test]
fn formats_interface_decl_round_trip() {
    round_trip(
        r#"interface Show { fn show(self: i64) -> i64; }
fn main() -> i64 { return 0; }"#,
    );
}

#[test]
fn formats_if_expression_round_trip() {
    round_trip(
        r#"fn main() -> i64 {
  let r: i64 = if true { 10 } else { 20 };
  return r;
}"#,
    );
}

#[test]
fn formats_field_assign_round_trip() {
    round_trip(
        r#"struct Point { x: i64, y: i64, }
fn main() -> i64 {
  let p: Point = Point { x: 1, y: 2 };
  p.x = 10;
  return p.x + p.y;
}"#,
    );
}

#[test]
fn formats_pure_fn_method_round_trip() {
    round_trip(
        r#"struct Point { x: i64, y: i64, }
methods on Point {
  pure fn dist(self: Point) -> i64 { return self.x + self.y; }
}
fn main() -> i64 { return 0; }"#,
    );
}

#[test]
fn formats_method_chain_round_trip() {
    round_trip(
        r#"struct Point { x: i64, y: i64, }
methods on Point {
  fn shift(self: Point, dx: i64) -> Point {
return Point { x: self.x + dx, y: self.y };
  }
  fn x_val(self: Point) -> i64 { return self.x; }
}
fn main() -> i64 { return Point { x: 1, y: 2 }.shift(5).shift(2).x_val(); }"#,
    );
}

#[test]
fn formats_if_expression_else_if_chain_round_trip() {
    round_trip(
        r#"fn main() -> i64 {
  let r: i64 = if true { 1 } else if false { 2 } else { 3 };
  return r;
}"#,
    );
}

#[test]
fn formats_integer_match_pattern_round_trip() {
    round_trip(
        r#"fn describe(x: i64) -> i64 {
  return match x { 0 then 1, 42 then 2, -1 then 3, _ then 0, };
}
fn main() -> i64 { return describe(42); }"#,
    );
}

#[test]
fn formats_methods_block_round_trip() {
    round_trip(
        r#"struct Point { x: i64, y: i64, }
methods on Point {
  fn manhattan(self: Point) -> i64 { return self.x + self.y; }
}
fn main() -> i64 { return 0; }"#,
    );
}

#[test]
fn formats_method_call_round_trip() {
    round_trip(
        r#"struct Point { x: i64, y: i64, }
methods on Point {
  fn shift(self: Point, dx: i64) -> i64 { return self.x + dx; }
}
fn main() -> i64 {
  let p: Point = Point { x: 1, y: 2 };
  return p.shift(5);
}"#,
    );
}

#[test]
fn formats_type_alias_round_trip() {
    round_trip(
        r#"type Coord = (i64, i64);
type Score = i64;
fn main() -> i64 { return 0; }"#,
    );
}

#[test]
fn formats_const_decl_round_trip() {
    round_trip(
        r#"const PI: f64 = 3.14;
const ANSWER: i64 = 42;
fn main() -> i64 { return ANSWER; }"#,
    );
}

#[test]
fn formats_impl_decl_round_trip() {
    round_trip(
        r#"interface Show { fn show(self: i64) -> i64; }
implement Show for i64 { fn show(self: i64) -> i64 { return self; } }
fn main() -> i64 { return 0; }"#,
    );
}

// ---- checking

/// What a floating-point question is answered.
fn float_answer(op: &FloatOp, left: &FloatLit, right: &FloatLit) -> Answer {
    let a = f64::from_bits(left.bits);
    let b = f64::from_bits(right.bits);
    match op {
        FloatOp::Add => Answer::Float(float_lit(a + b)),
        FloatOp::Sub => Answer::Float(float_lit(a - b)),
        FloatOp::Mul => Answer::Float(float_lit(a * b)),
        FloatOp::Div => Answer::Float(float_lit(a / b)),
        FloatOp::Narrow => Answer::Float(float_lit((a as f32) as f64)),
        FloatOp::FromInt(n) => Answer::Float(float_lit(*n as f64)),
        FloatOp::ToInt => Answer::Int(Some(a.trunc() as i128)),
    }
}

/// Checks a program, giving every obligation the same verdict, and the
/// questions it asked on the way.
fn checked(src: &str, verify: bool, verdict: &Verdict, unsatisfiable: bool) -> (CheckOutcome, Vec<Query>) {
    let mut answers: Vec<Answer> = Vec::new();
    let mut asked: Vec<Query> = Vec::new();
    loop {
        let given = answers.iter().map(|a| a.dup()).collect();
        match check(parse(src), verify, given) {
            CheckOutcome::Pending(q) => {
                answers.push(match &q {
                    Query::Prove { .. } => Answer::Verdict(verdict.dup()),
                    Query::Satisfy { .. } => Answer::Unsatisfiable(unsatisfiable),
                    Query::Float { op, left, right } => float_answer(op, left, right),
                });
                asked.push(q);
            }
            done => return (done, asked),
        }
    }
}

fn diagnostics(src: &str) -> Vec<Diagnostic> {
    match checked(src, false, &Verdict::Unavailable, false).0 {
        CheckOutcome::Rejected(ds) => ds,
        CheckOutcome::Accepted(_) => Vec::new(),
        CheckOutcome::Pending(_) => unreachable!(),
    }
}

fn errors(src: &str) -> Vec<String> {
    diagnostics(src).into_iter().map(|d| d.message).collect()
}

fn rejects(src: &str, messages: &[&str]) {
    assert_eq!(errors(src), messages, "{src}");
}

fn accepts(src: &str) -> CheckedProgram {
    match checked(src, false, &Verdict::Unavailable, false).0 {
        CheckOutcome::Accepted(c) => c,
        CheckOutcome::Rejected(ds) => panic!("{:?}\n{src}", ds),
        CheckOutcome::Pending(_) => unreachable!(),
    }
}

/// A program whose `main` has the given statements in front of its `return`.
fn main_with(body: &str) -> String {
    format!("fn main() -> i64 {{ {body} return 0; }}")
}

fn body_rejects(body: &str, messages: &[&str]) {
    rejects(&main_with(body), messages);
}

fn body_accepts(body: &str) -> Vec<TypedStmt> {
    let mut c = accepts(&main_with(body));
    c.ir.functions.pop().unwrap().body
}

#[test]
fn accepts_the_smallest_program() {
    let c = accepts("fn main() -> i64 { return 0; }");
    assert_eq!(c.ir.functions.len(), 1);
    assert_eq!(c.ir.functions[0].name, "main");
    assert_eq!(c.ir.functions[0].return_type, Type::I64);
    assert_eq!(c.ir.functions[0].body.len(), 2);
    assert!(matches!(c.ir.functions[0].body[0], TypedStmt::Let { .. }));
    assert!(matches!(c.ir.functions[0].body[1], TypedStmt::Return { .. }));
}

#[test]
fn a_program_needs_its_main() {
    rejects("fn f() -> i64 { return 0; }", &["program must define fn main() -> i64"]);
    rejects("fn main(x: i64) -> i64 { return x; }", &["main must have signature fn main() -> i64"]);
    rejects("fn main() -> bool { return true; }", &["main must have signature fn main() -> i64"]);
}

#[test]
fn function_names_are_unique() {
    rejects(
        "fn f() -> i64 { return 0; } fn f() -> i64 { return 1; } fn main() -> i64 { return f(); }",
        &["function 'f' is already defined"],
    );
    rejects(
        "fn push() -> i64 { return 0; } fn main() -> i64 { return 0; }",
        &["function 'push' is a built-in name and cannot be redefined"],
    );
}

#[test]
fn every_path_returns() {
    rejects(
        "fn main() -> i64 { let x: i64 = 1; }",
        &["function 'main' must return a i64"],
    );
    rejects(
        "fn f(b: bool) -> i64 { if b { return 1; } } fn main() -> i64 { return f(true); }",
        &["function 'f' must return a i64"],
    );
    accepts("fn f(b: bool) -> i64 { if b { return 1; } else { return 2; } } fn main() -> i64 { return f(true); }");
    rejects(
        "fn main() -> i64 { return 0; return 1; }",
        &["unreachable statement after a control-flow exit"],
    );
}

#[test]
fn names_have_to_be_known() {
    body_rejects("let x: i64 = y;", &["unknown variable 'y'"]);
    rejects("fn main() -> i64 { return f(1); }", &["unknown function 'f'"]);
    body_accepts("let y: i64 = 3; let x: i64 = y;");
    body_rejects("if true { let y: i64 = 3; } let x: i64 = y;", &["unknown variable 'y'"]);
}

#[test]
fn initializers_fit_their_types() {
    body_rejects("let x: bool = 1;", &["let initializer must be assignable to bool, got i64"]);
    body_rejects("let x: i8 = 200;", &["let initializer value 200 cannot be represented as i8"]);
    body_accepts("let x: i8 = 127;");
    body_accepts("let x: i8 = -128;");
    body_rejects("let x: u8 = -1;", &["let initializer value -1 cannot be represented as u8"]);
    body_accepts("let a: i32 = 5; let b: i64 = a;");
    rejects(
        "fn f(a: i64) -> i64 { let b: i32 = a; return 0; } fn main() -> i64 { return f(1); }",
        &["let initializer must be assignable to i32, got i64"],
    );
}

#[test]
fn constants_are_folded() {
    let body = body_accepts("let x: i64 = 2 + 3 * 4;");
    match &body[0] {
        TypedStmt::Let { expr, .. } => assert_eq!(expr.constant, Some(TypedConst::Int(14))),
        other => panic!("{other:?}"),
    }
    body_rejects(
        "let x: i64 = 1 / 0;",
        &["division by zero in constant expression"],
    );
    body_rejects(
        "let x: i64 = 1 % 0;",
        &["remainder by zero in constant expression"],
    );
    body_rejects(
        "let x: i64 = 9223372036854775807 + 1;",
        &["constant expression value 9223372036854775808 does not fit in i64"],
    );
}

#[test]
fn promotion_takes_the_wider_type() {
    let src = "fn f(a: i32, b: i64) -> i64 { return a + b; } fn main() -> i64 { return f(1, 2); }";
    accepts(src);
    rejects(
        "fn f(a: i64, b: u64) -> bool { return a + b == 0; } fn main() -> i64 { return 0; }",
        &["no safe implicit integer promotion for i64 and u64; use an explicit cast"],
    );
    rejects(
        "fn f(a: i32, b: u32) -> bool { return a < b; } fn main() -> i64 { return 0; }",
        &["no safe implicit integer promotion for i32 and u32; use an explicit cast"],
    );
}

#[test]
fn accepted_operands_have_the_type_of_their_operation() {
    let c = accepts(
        "fn f(a: i32, b: i64) -> i64 { return a + b; } fn main() -> i64 { return f(1, 2); }",
    );
    match &c.ir.functions[0].body[0] {
        TypedStmt::Let { ty, expr, .. } => {
            assert_eq!(*ty, Type::I64);
            assert_eq!(expr.ty, Type::I64);
            match &expr.kind {
                TypedExprKind::Binary { left, right, .. } => {
                    assert_eq!(left.ty, Type::I64);
                    assert_eq!(right.ty, Type::I64);
                    assert!(matches!(&left.kind, TypedExprKind::Cast { ty: Type::I64, .. }));
                }
                other => panic!("{other:?}"),
            }
        }
        other => panic!("{other:?}"),
    }
    match &c.ir.functions[1].body[0] {
        TypedStmt::Let { expr, .. } => match &expr.kind {
            TypedExprKind::Call { name, args, .. } => {
                assert_eq!(name, "f");
                assert_eq!(args.len(), 2);
                assert_eq!(args[0].ty, Type::I32);
                assert_eq!(args[1].ty, Type::I64);
            }
            other => panic!("{other:?}"),
        },
        other => panic!("{other:?}"),
    }
}

#[test]
fn accepted_literals_have_the_declared_fields() {
    let c = accepts(
        "struct P { x: i32, y: bool } fn main() -> i64 { let p = P { y: true, x: 1 }; let k: i32 = p.x; return 0; }",
    );
    let body = &c.ir.functions[0].body;
    match &body[0] {
        TypedStmt::Let { expr, .. } => match &expr.kind {
            TypedExprKind::StructLit { fields, .. } => {
                assert_eq!(fields.len(), 2);
                assert_eq!((fields[0].0.as_str(), &fields[0].1.ty), ("x", &Type::I32));
                assert_eq!((fields[1].0.as_str(), &fields[1].1.ty), ("y", &Type::Bool));
            }
            other => panic!("{other:?}"),
        },
        other => panic!("{other:?}"),
    }
    match &body[1] {
        TypedStmt::Let { expr, .. } => match &expr.kind {
            TypedExprKind::FieldAccess { field, field_index, .. } => {
                assert_eq!((field.as_str(), *field_index, &expr.ty), ("x", 0, &Type::I32));
            }
            other => panic!("{other:?}"),
        },
        other => panic!("{other:?}"),
    }
}

#[test]
fn accepted_matches_have_an_arm_for_every_variant() {
    let decl = "enum Light { Red, Green }";
    let c = accepts(&format!(
        "{decl} fn main() -> i64 {{ let l = Light.Red; return match l {{ Light.Green then 1, Light.Red then 2 }}; }}"
    ));
    match &c.ir.functions[0].body[1] {
        TypedStmt::Let { expr, .. } => match &expr.kind {
            TypedExprKind::Match { arms, .. } => {
                assert_eq!(arms.len(), 2);
                assert_eq!((arms[0].variant.as_str(), arms[0].tag), ("Green", 1));
                assert_eq!((arms[1].variant.as_str(), arms[1].tag), ("Red", 0));
                assert!(arms.iter().all(|a| a.body.ty == expr.ty));
            }
            other => panic!("{other:?}"),
        },
        other => panic!("{other:?}"),
    }
    rejects(
        &format!("{decl} fn main() -> i64 {{ let l = Light.Red; return match l {{ Light.Green then 1 }}; }}"),
        &["non-exhaustive match: missing arm for 'Light.Red'"],
    );
}

#[test]
fn floating_point_is_asked_for() {
    let src = main_with("let x: f64 = 1.5 + 2.0;");
    match check(parse(&src), false, Vec::new()) {
        CheckOutcome::Pending(Query::Float { op: FloatOp::Add, left, right }) => {
            assert_eq!(f64::from_bits(left.bits), 1.5);
            assert_eq!(f64::from_bits(right.bits), 2.0);
        }
        other => panic!("{other:?}"),
    }
    let body = body_accepts("let x: f64 = 1.5 + 2.0;");
    match &body[0] {
        TypedStmt::Let { expr, .. } => {
            assert_eq!(expr.constant, Some(TypedConst::Float(float_lit(3.5))))
        }
        other => panic!("{other:?}"),
    }
}

#[test]
fn moved_values_cannot_be_used_again() {
    let src = main_with("let xs: Vec<i64> = vec(1, 2); let ys: Vec<i64> = xs; let n: u64 = len(xs);");
    let ds = diagnostics(&src);
    assert_eq!(ds.len(), 1);
    assert_eq!(ds[0].message, "value 'xs' was moved; cannot use after move");
    assert_eq!(ds[0].related.len(), 1);
    assert_eq!(ds[0].related[0].1, "'xs' was moved here");
    let at = ds[0].related[0].0;
    assert_eq!(&src[at.start..at.end], "xs");
    assert!(at.start < ds[0].span.start);
    body_accepts("let xs: Vec<i64> = vec(1, 2); let n: u64 = len(xs); let ys: Vec<i64> = xs;");
    body_accepts("let x: i64 = 1; let y: i64 = x; let z: i64 = x;");
}

#[test]
fn owners_are_dropped_at_the_end_of_their_scope() {
    let body = body_accepts("if true { let xs: Vec<i64> = vec(1, 2); }");
    match &body[0] {
        TypedStmt::If { then_body, .. } => match then_body.last() {
            Some(TypedStmt::Drop { name, .. }) => assert_eq!(name, "xs"),
            other => panic!("{other:?}"),
        },
        other => panic!("{other:?}"),
    }
}

#[test]
fn branches_drop_what_the_other_one_moved() {
    let body = body_accepts(
        "let b: bool = true; let xs: Vec<i64> = vec(1); if b { let ys: Vec<i64> = xs; } else { let n: i64 = 0; }",
    );
    match &body[2] {
        TypedStmt::If { else_body, .. } => match else_body.last() {
            Some(TypedStmt::Drop { name, .. }) => assert_eq!(name, "xs"),
            other => panic!("{other:?}"),
        },
        other => panic!("{other:?}"),
    }
}

#[test]
fn loops_keep_the_move_state() {
    body_rejects(
        "let xs: Vec<i64> = vec(1); let i: i64 = 0; while i < 3 { let ys: Vec<i64> = xs; i = i + 1; }",
        &["loop body changes the move state: 'xs' is in a different move state than at loop start; consume or rebind it consistently before this point"],
    );
}

#[test]
fn jumps_belong_in_loops() {
    body_rejects("break;", &["'break' is only valid inside a 'while' loop"]);
    body_rejects("continue;", &["'continue' is only valid inside a 'while' loop"]);
    body_accepts("let i: i64 = 0; while i < 3 { i = i + 1; if i == 2 { break; } }");
}

#[test]
fn literal_conditions_show_dead_code() {
    body_rejects(
        "if false { let x: i64 = 1; }",
        &["condition is always false; the 'if' body is unreachable"],
    );
    body_rejects(
        "while false { let x: i64 = 1; }",
        &["loop condition is always false; the body never executes"],
    );
}

#[test]
fn pure_functions_have_no_effects() {
    rejects(
        "pure fn f() -> i64 { print \"x\"; return 0; } fn main() -> i64 { return f(); }",
        &["pure fn 'f' cannot contain `print` (observable I/O is a side effect)"],
    );
    rejects(
        "fn g() -> i64 { return 1; } pure fn f() -> i64 { return g(); } fn main() -> i64 { return f(); }",
        &["pure fn 'f' cannot call non-pure function 'g'; mark it `pure fn` or remove the call"],
    );
    accepts("pure fn g() -> i64 { return 1; } pure fn f() -> i64 { return g(); } fn main() -> i64 { return f(); }");
}

#[test]
fn parallel_loops_reduce() {
    body_accepts("let s: i64 = 0; parallel for i from 0 to 10 reduce s with +; { s = s + i; }");
    body_rejects(
        "let s: i64 = 0; parallel for i from 0 to 10 reduce s with +; { s = s * i; }",
        &["'parallel for' body reduction variable 's' must be updated only as `s + <expr> or <expr> + s`"],
    );
}

#[test]
fn tasks_are_joined_once() {
    body_accepts("task t { let x: i64 = 1; } join t;");
    body_rejects(
        "task t { let x: i64 = 1; }",
        &["task 't' was never consumed by `join t`; each `task` handle must be joined exactly once"],
    );
    body_rejects("join t;", &["join: no task named 't' in scope"]);
}

#[test]
fn matches_cover_every_variant() {
    let decl = "enum Color { Red, Green, Blue }";
    accepts(&format!(
        "{decl} fn f(c: Color) -> i64 {{ return match c {{ Color.Red then 1, Color.Green then 2, Color.Blue then 3 }}; }} fn main() -> i64 {{ return 0; }}"
    ));
    rejects(
        &format!("{decl} fn f(c: Color) -> i64 {{ return match c {{ Color.Red then 1, Color.Blue then 3 }}; }} fn main() -> i64 {{ return 0; }}"),
        &["non-exhaustive match: missing arm for 'Color.Green'"],
    );
    accepts(&format!(
        "{decl} fn f(c: Color) -> i64 {{ return match c {{ Color.Red then 1, _ then 3 }}; }} fn main() -> i64 {{ return 0; }}"
    ));
    rejects(
        "fn f(b: bool) -> i64 { return match b { true then 1 }; } fn main() -> i64 { return 0; }",
        &["non-exhaustive match: missing arm for 'false'"],
    );
    rejects(
        "fn f(n: i64) -> i64 { return match n { 1 then 1 }; } fn main() -> i64 { return 0; }",
        &["non-exhaustive match: integer scrutinees require a wildcard `_ then …` arm to cover values not explicitly listed"],
    );
}

#[test]
fn payloads_are_bound() {
    accepts(
        "enum Opt { Some(i64), None } fn f(o: Opt) -> i64 { return match o { Opt.Some(v) then v, Opt.None then 0 }; } fn main() -> i64 { return f(Opt.Some(3)); }",
    );
}

#[test]
fn a_leading_try_is_unfolded() {
    let c = accepts(
        "enum Opt { Some(i64), None } fn f(o: Opt) -> Opt { let v: i64 = try o; return Opt.Some(v + 1); } fn main() -> i64 { return 0; }",
    );
    match &c.program.functions[0].body[..] {
        [Stmt::Return { expr, .. }] => match &expr.kind {
            ExprKind::Match { arms, .. } => {
                assert_eq!(arms.len(), 2);
                assert!(matches!(arms[0].pattern, Pattern::VariantWithBinding { .. }));
                assert!(matches!(arms[1].pattern, Pattern::Variant { .. }));
            }
            other => panic!("{other:?}"),
        },
        other => panic!("{other:?}"),
    }
}

#[test]
fn structs_have_finite_size() {
    rejects(
        "struct A { b: B } struct B { a: A } fn main() -> i64 { return 0; }",
        &[
            "struct 'A' is recursive (directly or transitively) — contains itself by value, which has infinite size; use `ref T` / `Vec<T>` to break the cycle via the heap",
            "struct 'B' is recursive (directly or transitively) — contains itself by value, which has infinite size; use `ref T` / `Vec<T>` to break the cycle via the heap",
        ],
    );
    accepts("struct A { bs: Vec<B> } struct B { x: i64 } fn main() -> i64 { return 0; }");
}

#[test]
fn struct_declarations_are_checked() {
    rejects(
        "struct P { x: i64, x: i64 } fn main() -> i64 { return 0; }",
        &["struct 'P' has duplicate field 'x'"],
    );
    rejects(
        "struct P { x: i64 } struct P { y: i64 } fn main() -> i64 { return 0; }",
        &["struct 'P' already declared"],
    );
    rejects(
        "struct Task { x: i64 } fn main() -> i64 { return 0; }",
        &["struct name 'Task' is a reserved built-in type — pick a different name"],
    );
    rejects(
        "struct P { x: ref i64 } fn main() -> i64 { return 0; }",
        &["struct field 'P::x' cannot be a reference"],
    );
}

#[test]
fn struct_literals_have_their_fields() {
    let decl = "struct P { x: i64, y: i64 }";
    accepts(&format!("{decl} fn main() -> i64 {{ let p: P = P {{ x: 1, y: 2 }}; return p.x + p.y; }}"));
    rejects(
        &format!("{decl} fn main() -> i64 {{ let p: P = P {{ x: 1 }}; return 0; }}"),
        &["struct 'P' has 2 fields, literal provides 1", "let initializer must be assignable to P, got i64"],
    );
    rejects(
        &format!("{decl} fn main() -> i64 {{ let p: P = P {{ x: 1, z: 2 }}; return 0; }}"),
        &["struct 'P' literal missing field 'y'", "let initializer must be assignable to P, got i64"],
    );
    rejects(
        &format!("{decl} fn main() -> i64 {{ let p: P = P {{ x: 1, y: 2 }}; return p.z; }}"),
        &["struct 'P' has no field named 'z'"],
    );
}

#[test]
fn enum_declarations_are_checked() {
    rejects(
        "enum E { A, A } fn main() -> i64 { return 0; }",
        &["enum 'E' has duplicate variant 'A'"],
    );
    rejects(
        "enum E { A(i64), B(bool) } fn main() -> i64 { return 0; }",
        &["enum 'E' has mixed payload types — 'A' carries i64 but 'B' carries bool. V1 requires all payload-bearing variants to share the same payload type (multi-type representation deferred)."],
    );
}

#[test]
fn type_aliases_are_unfolded() {
    let c = accepts("type Id = i64; type Ids = Vec<Id>; fn f(xs: Ids) -> Id { return xs[0]; } fn main() -> i64 { return 0; }");
    assert_eq!(c.program.functions[0].params[0].ty, Type::Vec(Box::new(Type::I64)));
    assert_eq!(c.program.functions[0].return_type, Type::I64);
    rejects(
        "type A = B; type B = A; fn main() -> i64 { return 0; }",
        &["recursive type alias 'A' is not allowed in v1"],
    );
    rejects(
        "type A = i64; type A = bool; fn main() -> i64 { return 0; }",
        &["type alias 'A' is already declared"],
    );
    rejects(
        "struct A { x: i64 } type A = i64; fn main() -> i64 { return 0; }",
        &["type alias 'A' collides with a struct of the same name"],
    );
    rejects(
        "enum A { X } type A = i64; fn main() -> i64 { return 0; }",
        &["type alias 'A' collides with an enum of the same name"],
    );
}

#[test]
fn enum_names_are_told_from_structs() {
    let c = accepts("enum E { A } fn f(e: Vec<E>) -> i64 { return 0; } fn main() -> i64 { return 0; }");
    assert_eq!(c.program.functions[0].params[0].ty, Type::Vec(Box::new(Type::Enum("E".to_string()))));
}

#[test]
fn constants_are_literals() {
    accepts("const A: i64 = 40; const B: i64 = A + 2; fn main() -> i64 { return B; }");
    rejects(
        "const A: i8 = 200; fn main() -> i64 { return 0; }",
        &["const 'A': literal 200 does not fit in i8"],
    );
    rejects(
        "fn f() -> i64 { return 1; } const A: i64 = f(); fn main() -> i64 { return 0; }",
        &["const 'A': v1 initializers must be a literal value (e.g. 42, -1, 3.14, true); arithmetic + function calls land in a later phase"],
    );
    rejects(
        "const A: i64 = 1; const A: i64 = 2; fn main() -> i64 { return 0; }",
        &["const 'A' is already declared"],
    );
}

#[test]
fn methods_become_plain_functions() {
    let c = accepts(
        "struct P { x: i64 } methods on P { fn get(self: P) -> i64 { return self.x; } } fn main() -> i64 { let p: P = P { x: 3 }; return p.get(); }",
    );
    let names: Vec<&str> = c.program.functions.iter().map(|f| f.name.as_str()).collect();
    assert_eq!(names, ["main", "P_get"]);
    assert!(c.program.methods_blocks.is_empty());
    rejects(
        "struct P { x: i64 } methods on P { fn get(self: P) -> i64 { return 1; } fn get(self: P) -> i64 { return 2; } } fn main() -> i64 { return 0; }",
        &["method 'P::get' is declared twice in this methods block"],
    );
    rejects(
        "struct P { x: i64 } fn P_get() -> i64 { return 0; } methods on P { fn get(self: P) -> i64 { return 1; } } fn main() -> i64 { return 0; }",
        &["method 'P::get' (mangled to 'P_get') collides with an existing function — pick a different method name"],
    );
    rejects(
        "methods on i64 { fn get(self: i64) -> i64 { return 1; } } fn main() -> i64 { return 0; }",
        &["`methods on …` target must be a struct or enum type, got i64"],
    );
}

#[test]
fn implementations_match_their_interface() {
    let decl = "struct P { x: i64 } interface Show { fn show(self: P) -> i64; }";
    let c = accepts(&format!(
        "{decl} implement Show for P {{ fn show(self: P) -> i64 {{ return self.x; }} }} fn main() -> i64 {{ return 0; }}"
    ));
    assert_eq!(c.program.functions[1].name, "P_show");
    assert!(c.program.impls.is_empty());
    rejects(
        &format!("{decl} implement Show for P {{ }} fn main() -> i64 {{ return 0; }}"),
        &["`implement Show for P` is missing the interface method 'show'"],
    );
    rejects(
        &format!("{decl} implement Hide for P {{ }} fn main() -> i64 {{ return 0; }}"),
        &["`implement Hide for P` references unknown interface 'Hide'"],
    );
}

#[test]
fn generic_functions_are_specialised() {
    let c = accepts("fn id<T>(x: T) -> T { return x; } fn main() -> i64 { let b: bool = id(true); return id(3); }");
    let mut names: Vec<&str> = c.program.functions.iter().map(|f| f.name.as_str()).collect();
    names.sort();
    assert_eq!(names, ["id__bool", "id__i64", "main"]);
    assert!(c.program.functions.iter().all(|f| f.type_params.is_empty()));
    rejects(
        "fn id<T>(x: T) -> T { return x; } fn main() -> i64 { return 0; }",
        &["generic function 'id' is declared but never called with concrete types — monomorphization couldn't specialize it. Either call it from a non-generic call site or remove the declaration."],
    );
}

#[test]
fn arguments_do_not_alias() {
    let decl = "fn f(a: mut ref Vec<i64>, b: ref Vec<i64>) -> i64 { return 0; }";
    rejects(
        &format!("{decl} fn main() -> i64 {{ let xs: Vec<i64> = vec(1); return f(mut ref xs, ref xs); }}"),
        &["argument list aliases 'xs': an '&mut' borrow cannot coexist with another use of the same variable in the same call"],
    );
    accepts(&format!(
        "{decl} fn main() -> i64 {{ let xs: Vec<i64> = vec(1); let ys: Vec<i64> = vec(2); return f(mut ref xs, ref ys); }}"
    ));
}

#[test]
fn mutexes_are_not_locked_twice() {
    let start = "let m: Mutex<i64> = mutex_new(0); let g: Guard<i64> = mutex_lock(ref m);";
    body_accepts(start);
    body_rejects(
        &format!("{start} let h: Guard<i64> = mutex_lock(ref m);"),
        &["double acquisition: mutex 'm' is already locked by a live Guard in this scope; let the existing guard drop before re-locking"],
    );
    rejects(
        &format!(
            "fn lock(p: ref Mutex<i64>) -> i64 {{ let g: Guard<i64> = mutex_lock(p); return 0; }} fn outer(q: ref Mutex<i64>) -> i64 {{ return lock(q); }} fn main() -> i64 {{ {start} return outer(ref m); }}"
        ),
        &["cross-function double acquisition: 'outer' would call `mutex_lock` on 'm', but a Guard for 'm' is still live in this scope"],
    );
}

#[test]
fn channels_hold_a_power_of_two() {
    body_accepts("let c: Channel<i64, 4> = channel_new();");
    body_rejects(
        "let c: Channel<i64, 6> = channel_new();",
        &["Channel capacity must be a power of 2 ≥ 1, got 6"],
    );
}

#[test]
fn indices_are_checked() {
    body_rejects(
        "let xs: [i64; 3] = [1, 2, 3]; let x: i64 = xs[3];",
        &["array index 3 is out of range for length 3"],
    );
    body_accepts("let xs: [i64; 3] = [1, 2, 3]; let x: i64 = xs[2];");
}

#[test]
fn obligations_are_asked_about() {
    let src = "fn f(x: i64) -> i64 requires x > 0; { prove x >= 1; return x; } fn main() -> i64 { return 0; }";
    let (outcome, asked) = checked(src, true, &Verdict::Proven, false);
    assert!(matches!(outcome, CheckOutcome::Accepted(_)));
    assert!(matches!(asked[0], Query::Satisfy { .. }));
    match &asked[1] {
        Query::Prove { goal, facts, vars, .. } => {
            assert!(matches!(goal.kind, ExprKind::Binary { op: BinaryOp::Ge, .. }));
            assert_eq!(facts.len(), 1);
            assert_eq!(vars[0].0, "x");
            assert_eq!(vars[0].1, Type::I64);
        }
        other => panic!("{other:?}"),
    }
    assert!(matches!(checked(src, false, &Verdict::Unknown, false).0, CheckOutcome::Accepted(_)));
}

#[test]
fn unproven_claims_are_reported() {
    let src = "fn f(x: i64) -> i64 { prove x > 0; return x; } fn main() -> i64 { return 0; }";
    let told = |verdict: Verdict| match checked(src, true, &verdict, false).0 {
        CheckOutcome::Rejected(ds) => ds[0].message.clone(),
        other => panic!("{other:?}"),
    };
    assert_eq!(
        told(Verdict::Disproven { counterexample: Some("x = 0".to_string()) }),
        "proof failed: SMT counterexample [x = 0]"
    );
    assert_eq!(
        told(Verdict::Disproven { counterexample: None }),
        "proof failed: SMT solver found a counterexample (the expression is not universally true under the function's preconditions)"
    );
    assert_eq!(
        told(Verdict::Unknown),
        "cannot prove expression: SMT solver returned 'unknown' (try strengthening the preconditions or simplifying the claim)"
    );
    assert_eq!(
        told(Verdict::Unavailable),
        "cannot prove expression: no SMT solver available (install z3 in $PATH or set $Z3 to its path)"
    );
    assert_eq!(
        told(Verdict::Unsupported("floats".to_string())),
        "cannot prove expression: SMT encoder skipped this query (floats). v1 supports integer/bool arithmetic and comparison only."
    );
}

#[test]
fn contradictory_requirements_are_reported() {
    let src = "fn f(x: i64) -> i64 requires x > 0; requires x < 0; { return x; } fn main() -> i64 { return 0; }";
    match checked(src, true, &Verdict::Proven, true).0 {
        CheckOutcome::Rejected(ds) => assert_eq!(
            ds[0].message,
            "function 'f' has contradictory 'requires' clauses; every proof in its body is vacuously true and the function is unreachable"
        ),
        other => panic!("{other:?}"),
    }
}

fn returned_index(src: &str, verdict: &Verdict) -> bool {
    match checked(src, true, verdict, false).0 {
        CheckOutcome::Accepted(c) => match &c.ir.functions[0].body[0] {
            TypedStmt::Let { expr, .. } => match &expr.kind {
                TypedExprKind::Index { checked, .. } => *checked,
                other => panic!("{other:?}"),
            },
            other => panic!("{other:?}"),
        },
        other => panic!("{other:?}"),
    }
}

#[test]
fn checks_go_only_on_a_proof() {
    let src = "fn f(xs: Vec<i64>, i: u64) -> i64 { let x: i64 = xs[i]; return x; } fn main() -> i64 { return 0; }";
    assert!(!returned_index(src, &Verdict::Proven));
    assert!(returned_index(src, &Verdict::Unknown));
    assert!(returned_index(src, &Verdict::Unavailable));
}

#[test]
fn the_first_open_question_is_pending() {
    let src = "fn f(x: i64) -> i64 { prove x > 0; prove x > 1; return x; } fn main() -> i64 { return 0; }";
    let first = match check(parse(src), true, Vec::new()) {
        CheckOutcome::Pending(Query::Prove { goal, .. }) => goal,
        other => panic!("{other:?}"),
    };
    match first.kind {
        ExprKind::Binary { right, .. } => assert_eq!(right.kind, ExprKind::Int(0)),
        other => panic!("{other:?}"),
    }
    match check(parse(src), true, vec![Answer::Verdict(Verdict::Proven)]) {
        CheckOutcome::Pending(Query::Prove { goal, .. }) => match goal.kind {
            ExprKind::Binary { right, .. } => assert_eq!(right.kind, ExprKind::Int(1)),
            other => panic!("{other:?}"),
        },
        other => panic!("{other:?}"),
    }
}

#[test]
fn text_matches_become_tests() {
    accepts("fn f(s: Str) -> i64 { return match s { \"a\" then 1, \"b\" then 2, _ then 3 }; } fn main() -> i64 { return f(\"b\"); }");
    rejects(
        "fn f(s: Str) -> i64 { return match s { \"a\" then 1 }; } fn main() -> i64 { return 0; }",
        &["non-exhaustive match: string scrutinees require a wildcard `_ then …` arm to cover values not explicitly listed"],
    );
}

#[test]
fn declarations_are_written_in_source_order() {
    let src = "fn main() -> i64 { return 0; } struct A { x: i64 } const B: i64 = 1; enum C { D } type E = i64;";
    let text = format_program(&parse(src));
    let at = |s: &str| text.find(s).unwrap();
    assert!(at("fn main") < at("struct A"));
    assert!(at("struct A") < at("const B"));
    assert!(at("const B") < at("enum C"));
    assert!(at("enum C") < at("type E"));
}

#[test]
fn strings_are_written_with_escapes() {
    let text = format_program(&parse("intent \"a\\\"b\\\\c\\n\"; fn main() -> i64 { return 0; }"));
    assert!(text.starts_with("intent \"a\\\"b\\\\c\\n\";\n"), "{text}");
}

#[test]
fn every_comment_is_kept_in_order() {
    let src = "// one\nfn main() -> i64 {\n    // two\n    let x: i64 = 1; // three\n    // four\n    return x;\n    // five\n}\n// six\n";
    let text = fmt_with_comments(src);
    let mut last = 0;
    for c in ["// one", "// two", "// three", "// four", "// five", "// six"] {
        let at = text.find(c).unwrap();
        assert!(at >= last, "{text}");
        last = at;
    }
    assert_eq!(format_program(&parse(src)), format_program_with_comments(&parse(src), "", &[]));
}

#[test]
fn operators_take_fitting_operands() {
    body_rejects("let x: u64 = 1; let y: i64 = -x;", &["unary '-' cannot be applied to unsigned type u64"]);
    body_rejects("let b: bool = true; let y: i64 = 1 + b;", &["right operand must be numeric, got bool"]);
    body_rejects("let b: bool = !1;", &["unary '!' must be bool, got i64"]);
    body_rejects("let b: bool = true && 1;", &["boolean right operand must be bool, got i64"]);
    body_rejects("let x: i64 = 1 << 64;", &["shift count must be less than 64 for i64"]);
    body_rejects("let x: i64 = 1 << -1;", &["shift count cannot be negative"]);
    body_accepts("let x: i64 = 1 << 3; prove x == 8;");
}

#[test]
fn equality_compares_alike() {
    body_rejects("let b: bool = true == 1;", &["equality operands must both be bool or both be numeric, got bool and i64"]);
    body_accepts("let a: (i64, bool) = (1, true); let b: bool = a == (1, false);");
    body_accepts("let b: bool = \"x\" == \"y\";");
}

#[test]
fn known_conditions_are_folded() {
    let body = body_accepts("let b: bool = 1 < 2;");
    match &body[0] {
        TypedStmt::Let { expr, .. } => assert_eq!(expr.constant, Some(TypedConst::Bool(true))),
        other => panic!("{other:?}"),
    }
    body_rejects("prove 1 > 2;", &["proof failed: expression is always false"]);
}

#[test]
fn arrays_and_vectors_are_uniform() {
    body_rejects(
        "let xs: Vec<i64> = vec(1, true);",
        &["vec element 1 value true cannot be represented as i64"],
    );
    body_accepts("let xs: Vec<i64> = vec();");
    body_rejects(
        "let x: i64 = 1; let y: i64 = x[0];",
        &["cannot index into non-array type i64"],
    );
    body_rejects(
        "let xs: Vec<i64> = vec(1); let y: i64 = xs[true];",
        &["array index must be an integer, got bool"],
    );
    body_rejects(
        "let n: u64 = len(3);",
        &["len() requires an array, Vec, or Str argument, got i64"],
    );
}

#[test]
fn vectors_grow_by_push() {
    body_accepts("let xs: Vec<i64> = vec(1); let ys: Vec<i64> = push(xs, 2); let n: i64 = ys[1];");
    body_rejects(
        "let xs: Vec<i64> = vec(1); let ys: Vec<i64> = push(xs, 2); let n: i64 = xs[0];",
        &["value 'xs' was moved; cannot use after move"],
    );
    body_accepts("let xs: Vec<i64> = vec(1); let ys: Vec<i64> = clone(xs); let n: i64 = xs[0];");
    body_accepts("let xs: Vec<i64> = vec(1, 2); let ys: Vec<i64> = set(xs, 0, 5);");
}

#[test]
fn tuples_have_a_few_copied_elements() {
    body_accepts("let t: (i64, bool) = (1, true); let b: bool = t.1;");
    body_rejects(
        "let t: (i64, bool) = (1, true); let b: bool = t.2;",
        &["tuple index 2 out of bounds for tuple of arity 2", "let initializer must be assignable to bool, got i64"],
    );
    body_accepts("let (a, b) = (1, true); let c: bool = b;");
    body_rejects(
        "let (a, a) = (1, true);",
        &["destructure-let names must be distinct; 'a' used twice"],
    );
    body_rejects("let (a, b) = 1;", &["destructure-let RHS must be a tuple, got i64"]);
}

#[test]
fn match_arms_are_distinct() {
    let decl = "enum E { A, B }";
    rejects(
        &format!("{decl} fn f(e: E) -> i64 {{ return match e {{ E.A then 1, E.A then 2, E.B then 3 }}; }} fn main() -> i64 {{ return 0; }}"),
        &["match arm for 'E.A' appears twice"],
    );
    rejects(
        &format!("{decl} fn f(e: E) -> i64 {{ return match e {{ _ then 1, E.A then 2 }}; }} fn main() -> i64 {{ return 0; }}"),
        &["match arm is unreachable: a wildcard `_` arm above already covers every remaining case"],
    );
    rejects(
        "fn f(n: i64) -> i64 { return match n { 1 then 1, 1 then 2, _ then 3 }; } fn main() -> i64 { return 0; }",
        &["match arm for integer pattern '1' appears twice"],
    );
    rejects(
        "fn f(n: u8) -> i64 { return match n { 300 then 1, _ then 3 }; } fn main() -> i64 { return 0; }",
        &["integer pattern '300' does not fit in scrutinee type u8"],
    );
    rejects(
        "fn f(s: Str) -> i64 { return match s { \"a\" then 1, \"a\" then 2, _ then 3 }; } fn main() -> i64 { return 0; }",
        &["match arm for string pattern \"a\" appears twice"],
    );
}

#[test]
fn match_arms_have_one_type() {
    rejects(
        "fn f(n: i64) -> i64 { return match n { 1 then 1, _ then true }; } fn main() -> i64 { return 0; }",
        &["match arm body has type bool but earlier arm produced i64"],
    );
}

#[test]
fn if_values_have_one_type() {
    body_accepts("let x: i64 = if true { 1 } else { 2 };");
    body_rejects(
        "let x: i64 = if 1 { 1 } else { 2 };",
        &["if-expression condition must be bool, got i64"],
    );
}

#[test]
fn calls_have_their_arguments() {
    let f = "fn f(a: i64, b: bool) -> i64 { return a; }";
    accepts(&format!("{f} fn main() -> i64 {{ return f(1, true); }}"));
    rejects(
        &format!("{f} fn main() -> i64 {{ return f(1); }}"),
        &["function 'f' expects 2 argument(s), got 1"],
    );
    rejects(
        &format!("{f} fn main() -> i64 {{ return f(true, true); }}"),
        &["argument 1 to 'f' value true cannot be represented as i64"],
    );
}

#[test]
fn functions_are_values() {
    accepts("fn g(x: i64) -> i64 { return x; } fn main() -> i64 { let h: fn(i64) -> i64 = g; return h(3); }");
}

#[test]
fn methods_are_looked_up_by_type() {
    rejects(
        "fn main() -> i64 { let x: i64 = 1; return x.get(); }",
        &["cannot call method 'get' on i64 — methods are attached to struct/enum types only in v1"],
    );
}

#[test]
fn enum_constructors_take_their_payload() {
    let decl = "enum Opt { Some(i64), None }";
    rejects(
        &format!("{decl} fn main() -> i64 {{ let o: Opt = Opt.Some(1, 2); return 0; }}"),
        &["enum constructor 'Opt.Some' expects 1 payload argument, got 2", "let initializer must be assignable to Opt, got i64"],
    );
    rejects(
        &format!("{decl} fn main() -> i64 {{ let o: Opt = Opt.None(1); return 0; }}"),
        &["enum variant 'Opt.None' has no payload — use `Opt.None` without parentheses", "let initializer must be assignable to Opt, got i64"],
    );
    rejects(
        &format!("{decl} fn main() -> i64 {{ let o: Opt = Opt.Other; return 0; }}"),
        &["enum 'Opt' has no variant named 'Other'", "let initializer must be assignable to Opt, got i64"],
    );
}

#[test]
fn references_stay_in_calls() {
    body_rejects(
        "let x: i64 = 1; let r: ref i64 = ref x;",
        &[
            "let annotation cannot be a reference type",
            "references cannot be stored in 'let' bindings; pass '&r' directly to a function parameter instead",
        ],
    );
    body_rejects(
        "let _ = ref 1;",
        &["'ref' can only borrow a named variable or a struct field; e.g. `ref xs` or `ref t.field`"],
    );
}

#[test]
fn assignments_fit_their_targets() {
    body_accepts("let x: i64 = 1; x = 2;");
    body_rejects("x = 2;", &["cannot assign to unknown variable 'x'"]);
    body_rejects(
        "let x: i64 = 1; x = true;",
        &["assignment value value true cannot be represented as i64"],
    );
    body_accepts("let xs: [i64; 2] = [1, 2]; xs[1] = 5;");
    body_rejects("xs[0] = 1;", &["cannot index-assign to unknown variable 'xs'"]);
    body_rejects(
        "let xs: [i64; 2] = [1, 2]; xs[true] = 5;",
        &["index must be an integer, got bool"],
    );
}

#[test]
fn fields_are_assigned() {
    let decl = "struct P { x: i64 }";
    accepts(&format!("{decl} fn main() -> i64 {{ let p: P = P {{ x: 1 }}; p.x = 2; return p.x; }}"));
    rejects(
        &format!("{decl} fn main() -> i64 {{ let p: P = P {{ x: 1 }}; p.y = 2; return p.x; }}"),
        &["struct 'P' has no field named 'y'"],
    );
}

#[test]
fn a_name_keeps_its_type() {
    body_rejects(
        "let x: i64 = 1; let x: bool = true;",
        &["shadowing 'let x' must preserve its type; previous type was i64, new type is bool"],
    );
    body_accepts("let x: i64 = 1; let x: i64 = 2;");
}

#[test]
fn partly_moved_structs_cannot_be_moved() {
    let decl = "struct P { xs: Vec<i64>, n: i64 }";
    let src = format!(
        "{decl} fn main() -> i64 {{ let p: P = P {{ xs: vec(1), n: 2 }}; let a: Vec<i64> = p.xs; let q: P = p; return 0; }}"
    );
    let ds = diagnostics(&src);
    assert_eq!(
        ds[0].message,
        "cannot move 'p' — its field 'xs' was previously moved out, leaving the struct only partially initialized"
    );
    assert_eq!(ds[0].related[0].1, "'p.xs' was moved here");
}

#[test]
fn values_are_printed_one_by_one() {
    body_accepts("print \"x = \", 3;");
    body_rejects(
        "let xs: Vec<i64> = vec(1); print xs;",
        &["cannot print an array or Vec directly; index it first"],
    );
    body_rejects(
        "let t: (i64, i64) = (1, 2); print t;",
        &["cannot print a tuple directly; print individual elements via `.0` / `.1`"],
    );
}

#[test]
fn loops_have_integer_bounds() {
    body_accepts("let s: i64 = 0; for i from 0 to 10 { s = s + i; }");
    body_rejects(
        "for i from 0 to true { let x: i64 = 1; }",
        &["for-loop range bounds must be integers, got i64 and bool"],
    );
    body_accepts("let xs: Vec<i64> = vec(1, 2); let s: i64 = 0; for x in ref xs { s = s + x; } let n: u64 = len(xs);");
    body_rejects(
        "let xs: Vec<i64> = vec(1, 2); for x in xs { let y: i64 = x; } let n: u64 = len(xs);",
        &["value 'xs' was moved; cannot use after move"],
    );
    body_rejects("for x in ref xs { let y: i64 = 1; }", &["unknown variable 'xs'"]);
}

#[test]
fn tasks_capture_copies() {
    body_rejects(
        "let xs: Vec<i64> = vec(1); task t { let n: u64 = len(xs); } join t;",
        &["task body captures non-Copy binding 'xs' (type Vec<i64>). Captures must be Copy types — pre-extract scalar values from `xs` before the spawn site."],
    );
    body_accepts("let n: i64 = 1; task t { let m: i64 = n; } join t;");
    body_rejects(
        "task t { let x: i64 = 1; } join t; join t;",
        &["join: task 't' was already joined at byte 46..53"],
    );
}

#[test]
fn atomics_and_channels_have_their_types() {
    body_accepts("let a: Atomic<i64> = atomic_new(1); let x: i64 = atomic_load(ref a); let y: i64 = atomic_fetch_add(ref a, 2);");
    body_accepts("let c: Channel<i64, 2> = channel_new(); let x: i64 = channel_send(ref c, 1); let y: i64 = channel_recv(ref c);");
}

#[test]
fn loop_invariants_are_asked_about() {
    let src = "fn main() -> i64 { let i: i64 = 0; while i < 10 invariant i <= 10; { i = i + 1; } return i; }";
    let (outcome, asked) = checked(src, true, &Verdict::Proven, false);
    assert!(matches!(outcome, CheckOutcome::Accepted(_)), "{outcome:?}");
    assert_eq!(asked.iter().filter(|q| matches!(q, Query::Prove { .. })).count(), 2);
    match checked(src, true, &Verdict::Unknown, false).0 {
        CheckOutcome::Rejected(ds) => assert_eq!(ds.len(), 2),
        other => panic!("{other:?}"),
    }
}

#[test]
fn ensures_are_asked_about_at_return() {
    let src = "fn f(x: i64) -> i64 ensures _return > x; { return x + 1; } fn main() -> i64 { return 0; }";
    let (outcome, asked) = checked(src, true, &Verdict::Proven, false);
    assert!(matches!(outcome, CheckOutcome::Accepted(_)), "{outcome:?}");
    match &asked[0] {
        Query::Prove { goal, .. } => match &goal.kind {
            ExprKind::Binary { op: BinaryOp::Gt, left, .. } => {
                assert!(matches!(left.kind, ExprKind::Binary { op: BinaryOp::Add, .. }))
            }
            other => panic!("{other:?}"),
        },
        other => panic!("{other:?}"),
    }
}

#[test]
fn requirements_are_asked_about_at_calls() {
    let src = "fn f(x: i64) -> i64 requires x > 0; { return x; } fn main() -> i64 { return f(5); }";
    let (outcome, asked) = checked(src, true, &Verdict::Disproven { counterexample: None }, false);
    assert!(matches!(outcome, CheckOutcome::Rejected(_)), "{outcome:?}");
    assert!(asked.iter().any(|q| matches!(q, Query::Prove { goal, .. } if matches!(&goal.kind, ExprKind::Binary { left, .. } if left.kind == ExprKind::Int(5)))));
}

/// The goals asked about, as text.
fn goals(src: &str) -> Vec<String> {
    let (_, asked) = checked(src, true, &Verdict::Proven, false);
    asked
        .iter()
        .filter_map(|q| match q {
            Query::Prove { goal, .. } => Some(format_expr(goal, false)),
            _ => None,
        })
        .collect()
}

/// The facts of the last goal asked about, as text.
fn last_facts(src: &str) -> Vec<String> {
    let (_, asked) = checked(src, true, &Verdict::Proven, false);
    asked
        .iter()
        .rev()
        .find_map(|q| match q {
            Query::Prove { facts, .. } => Some(facts.iter().map(|f| format_expr(f, false)).collect()),
            _ => None,
        })
        .unwrap()
}

#[test]
fn an_assigned_vector_is_no_longer_its_literal() {
    let src = main_with("let v: Vec<i64> = vec(1, 2); prove v[0] == 7; v = vec(5, 6); prove v[0] == 8;");
    let asked = goals(&src);
    assert!(asked.iter().any(|g| g == "1 == 7"), "{asked:?}");
    assert!(asked.iter().any(|g| g.starts_with("v[0]") || g.ends_with("[0] == 8")), "{asked:?}");
    assert!(!asked.iter().any(|g| g == "1 == 8"), "{asked:?}");
}

#[test]
fn an_assigned_struct_is_no_longer_its_literal() {
    let decl = "struct P { x: i64 }";
    let before = last_facts(&format!("{decl} fn main() -> i64 {{ let p: P = P {{ x: 3 }}; prove p.x == 4; return 0; }}"));
    assert!(before.iter().any(|f| f.ends_with("== 3")), "{before:?}");
    let whole = last_facts(&format!(
        "{decl} fn f(q: P) -> i64 {{ let p: P = P {{ x: 3 }}; p = q; prove p.x == 4; return 0; }} fn main() -> i64 {{ return 0; }}"
    ));
    assert!(!whole.iter().any(|f| f.ends_with("== 3")), "{whole:?}");
    let field = last_facts(&format!(
        "{decl} fn f(n: i64) -> i64 {{ let p: P = P {{ x: 3 }}; p.x = n; prove p.x == 4; return 0; }} fn main() -> i64 {{ return 0; }}"
    ));
    assert!(!field.iter().any(|f| f.ends_with("== 3")), "{field:?}");
}

#[test]
fn a_let_hides_a_constant() {
    let c = accepts("const A: i64 = 1; fn main() -> i64 { let A: i64 = 2; return A; }");
    assert!(matches!(&c.ir.functions[0].body[0], TypedStmt::Let { name, .. } if name == "A"), "{:?}", c.ir.functions[0].body);
}

#[test]
fn pure_functions_compare_text() {
    accepts("pure fn f(s: Str) -> bool { return s == \"a\"; } fn main() -> i64 { return 0; }");
    rejects(
        "pure fn f(xs: Vec<i64>) -> i64 { let n: i64 = push(mut ref xs, 1); return n; } fn main() -> i64 { return 0; }",
        &["pure fn 'f' cannot call non-pure function 'push_mut'; mark it `pure fn` or remove the call"],
    );
}

#[test]
fn reduced_values_have_no_effects() {
    let g = "fn g(i: i64) -> i64 { print i; return i; }";
    let es = errors(&format!(
        "{g} fn main() -> i64 {{ let s: i64 = 0; parallel for i from 0 to 10 reduce s with +; {{ s = s + g(i); }} return s; }}"
    ));
    assert_eq!(es.len(), 1, "{es:?}");
    assert!(es[0].contains("'g'"), "{es:?}");
    let es = errors(&main_with(
        "let s: i64 = 0; parallel for i from 0 to 10 reduce s with +; { let t: i64 = if s > 3 { 1 } else { 2 }; s = s + t; }",
    ));
    assert_eq!(es.len(), 1, "{es:?}");
    assert!(es[0].contains("'s'"), "{es:?}");
}

#[test]
fn implementations_take_what_their_interface_says() {
    let decl = "struct P { x: i64 } interface Show { fn show(self: P, n: i64) -> i64; }";
    let with = |n: &str| {
        format!("{decl} implement Show for P {{ fn show(self: P, n: {n}) -> i64 {{ return 0; }} }} fn main() -> i64 {{ return 0; }}")
    };
    accepts(&with("i64"));
    rejects(
        &with("bool"),
        &[
            "impl method 'P::show' parameter 1 has type bool but interface declares i64",
            "`implement Show for P` is missing the interface method 'show'",
        ],
    );
}

#[test]
fn implementations_return_what_their_interface_says() {
    let with = |declared: &str, given: &str| {
        errors(&format!(
            "struct P {{ x: i64 }} struct Q {{ x: i64 }} interface I {{ fn f(self: P) -> {declared}; }} \
            implement I for Q {{ fn f(self: Q) -> {given} {{ return {given} {{ x: 1 }}; }} }} fn main() -> i64 {{ return 0; }}"
        ))
    };
    assert_eq!(
        with("P", "Q"),
        [
            "impl method 'Q::f' returns Q but interface declares P",
            "`implement I for Q` is missing the interface method 'f'",
        ]
    );
    assert!(with("P", "P").is_empty());
    assert!(with("Q", "Q").is_empty());
    assert!(with("Self", "Q").is_empty());
}

#[test]
fn aliases_are_replaced_everywhere() {
    let src = "type Id = i64; enum E { A(Id), B } struct P { x: Id } \
        interface Show { fn show(self: P, n: Id) -> Id; } \
        implement Show for P { fn show(self: P, n: i64) -> i64 { return self.x + n; } } \
        const K: Id = 3; \
        fn f(x: i32) -> Id { let y: Id = x as Id; return y; } \
        fn main() -> i64 { return f(3); }";
    let c = accepts(src);
    assert_eq!(c.program.enums[0].variants[0].payload, vec![Type::I64]);
    assert_eq!(c.program.structs[0].fields[0].ty, Type::I64);
    assert_eq!(c.program.interfaces[0].methods[0].return_type, Type::I64);
    assert_eq!(c.program.interfaces[0].methods[0].params[1].ty, Type::I64);
    let f = c.program.functions.iter().find(|f| f.name == "f").unwrap();
    match &f.body[0] {
        Stmt::Let { expr, .. } => match &expr.kind {
            ExprKind::Cast { ty, .. } => assert_eq!(*ty, Type::I64),
            other => panic!("{other:?}"),
        },
        other => panic!("{other:?}"),
    }
}

#[test]
fn enum_names_are_told_from_structs_everywhere() {
    let src = "enum E { A, B } enum F { C(E), D } interface Show { fn show(self: F) -> E; } fn main() -> i64 { return 0; }";
    let p = intentc::resolve::resolve_enum_types_in_program(&parse(src));
    assert_eq!(p.enums[1].variants[0].payload, vec![Type::Enum("E".to_string())]);
    assert_eq!(p.interfaces[0].methods[0].params[0].ty, Type::Enum("F".to_string()));
    assert_eq!(p.interfaces[0].methods[0].return_type, Type::Enum("E".to_string()));
}

#[test]
fn type_parameters_are_replaced_in_every_body() {
    let src = "fn f<T>(x: T) -> T { for i from 0 to 2 { let y: T = x; } \
        let xs: Vec<i64> = vec(1); for v in ref xs { let z: T = x; } return x; } \
        fn main() -> i64 { return f(3); }";
    let mut p = parse(src);
    for s in &mut p.functions[0].body {
        if let Stmt::For { body, .. } | Stmt::ForIter { body, .. } = s {
            if let Stmt::Let { annotation: Some(ty), .. } = &mut body[0] {
                mark_param(ty, "T");
            }
        }
    }
    let c = match check(p, false, Vec::new()) {
        CheckOutcome::Accepted(c) => c,
        other => panic!("{other:?}"),
    };
    let f = c.program.functions.iter().find(|f| f.name == "f__i64").unwrap();
    match (&f.body[0], &f.body[2]) {
        (Stmt::For { body: a, .. }, Stmt::ForIter { body: b, .. }) => {
            assert!(matches!(&a[0], Stmt::Let { annotation: Some(Type::I64), .. }), "{a:?}");
            assert!(matches!(&b[0], Stmt::Let { annotation: Some(Type::I64), .. }), "{b:?}");
        }
        other => panic!("{other:?}"),
    }
}

#[test]
fn jumps_drop_what_is_left_of_a_struct() {
    let c = accepts(
        "struct P { a: Vec<i64>, b: Vec<i64> } fn main() -> i64 { let i: i64 = 0; \
        while i < 3 { i = i + 1; let p: P = P { a: vec(1), b: vec(2) }; let s: Vec<i64> = p.a; if i == 2 { break; } } return 0; }",
    );
    match &c.ir.functions[0].body[1] {
        TypedStmt::While { body, .. } => {
            let text = format!("{body:?}");
            assert_eq!(text.matches("moved_fields: [\"a\"]").count(), 2, "{text}");
        }
        other => panic!("{other:?}"),
    }
}

#[test]
fn a_comment_stays_behind_its_declaration() {
    let src = "struct P {\n  x: i64,\n}  // tail\n\nfn main() -> i64 {\n  return 0;\n}  // end\n";
    assert_eq!(fmt_with_comments(src), src);
    let src = "const A: i64 = 1;  // one\n\ntype B = i64;  // two\n\nenum C {\n  D,\n}  // three\n\nfn main() -> i64 {\n  return 0;\n}\n";
    assert_eq!(fmt_with_comments(src), src);
}

#[test]
fn comments_are_written_once_and_in_order() {
    let src = "use \"a\"; // use\nintent \"b\"; // intent\n// lead\nstruct P { x: i64 } // tail\n\
        methods on P {\n fn get(self: P) -> i64 {\n // in\n return self.x; // ret\n }\n // last\n}\n\
        fn main() -> i64 {\n  if true {\n // then\n let x: i64 = 1;\n } else {\n // else\n let y: i64 = 2;\n }\n  return 0; // done\n}\n// end\n";
    let written = fmt_with_comments(src);
    let texts = |s: &str| -> Vec<String> { extract_comments(s).into_iter().map(|c| c.text.trim_end().to_string()).collect() };
    assert_eq!(texts(&written), texts(src), "{written}");
    let ink = |s: &str| -> String { s.chars().filter(|c| !c.is_whitespace()).collect() };
    let mut bare = written.clone();
    for c in extract_comments(&written).iter().rev() {
        bare.replace_range(c.span.start..c.span.end, "");
    }
    assert_eq!(ink(&bare), ink(&format_program(&parse(src))));
}

#[test]
fn text_patterns_are_written_with_escapes() {
    let src = "fn f(s: Str) -> i64 { return match s { \"a\\\"b\" then 1, _ then 2 }; } fn main() -> i64 { return 0; }";
    let text = format_program(&parse(src));
    assert!(text.contains("match s { \"a\\\"b\" then 1, _ then 2, }"), "{text}");
    round_trip(src);
}

#[test]
fn enums_with_a_drop_are_moved() {
    let decl = "enum E { A, B } interface Drop { fn drop(self: E) -> i64; } \
        implement Drop for E { fn drop(self: E) -> i64 { return 0; } }";
    let es = errors(&format!("{decl} fn main() -> i64 {{ let e: E = E.A; let f: E = e; let g: E = e; return 0; }}"));
    assert_eq!(es, ["value 'e' was moved; cannot use after move"]);
    let c = accepts(&format!("{decl} fn main() -> i64 {{ let e: E = E.A; return 0; }}"));
    assert!(c.ir.functions[0].body.iter().any(|s| matches!(s, TypedStmt::Drop { name, .. } if name == "e")), "{:?}", c.ir.functions[0].body);
}

#[test]
fn structs_that_hold_a_drop_are_moved() {
    let decl = "struct P { x: i64 } struct Q { p: P } interface Drop { fn drop(self: P) -> i64; } \
        implement Drop for P { fn drop(self: P) -> i64 { return 0; } }";
    let es = errors(&format!(
        "{decl} fn main() -> i64 {{ let q: Q = Q {{ p: P {{ x: 1 }} }}; let r: Q = q; let s: Q = q; return 0; }}"
    ));
    assert_eq!(es, ["value 'q' was moved; cannot use after move"]);
}

#[test]
fn destructured_values_go_by_their_annotation() {
    let first = |body: Vec<TypedStmt>| match body.into_iter().next() {
        Some(TypedStmt::Let { ty, expr, .. }) => (ty, expr.ty),
        other => panic!("{other:?}"),
    };
    let pair = |a: Type, b: Type| Type::Tuple(vec![a, b]);
    assert_eq!(
        first(body_accepts("let (a, b) = (1, true);")),
        (pair(Type::I64, Type::Bool), pair(Type::I64, Type::Bool))
    );
    assert_eq!(
        first(body_accepts("let (a, b): (u8, i64) = (1, 2);")),
        (pair(Type::U8, Type::I64), pair(Type::I64, Type::I64))
    );
    body_rejects("let (a, b): (i64, i64) = 5;", &["destructure-let RHS must be a tuple, got i64"]);
    body_rejects("let (a, b): i64 = (1, 2);", &["destructure-let annotation must be a tuple type, got i64"]);
    body_rejects("let (a, b): (i64, i64, i64) = (1, 2, 3);", &["destructure-let: tuple has 3 elements but 2 names given"]);
}

#[test]
fn unchosen_values_are_dropped_at_calls() {
    let src = "fn f(xs: Vec<i64>) -> i64 { return 0; } fn g(b: bool) -> i64 { let a: Vec<i64> = vec(1); let c: Vec<i64> = vec(2); \
        let n: i64 = f(if b { a } else { c }); return n; } fn main() -> i64 { return 0; }";
    let c = accepts(src);
    let g = c.ir.functions.iter().find(|f| f.name == "g").unwrap();
    let text = format!("{:?}", g.body);
    assert!(text.contains("Drop { name: \"c\"") && text.contains("Drop { name: \"a\""), "{text}");
}

#[test]
fn casts_are_bounded_by_doubles() {
    let constant = |body: &str| match body_accepts(body).into_iter().next() {
        Some(TypedStmt::Let { expr, .. }) => expr.constant,
        other => panic!("{other:?}"),
    };
    assert_eq!(
        constant("let x: i64 = 9223372036854775808.0 as i64;"),
        Some(TypedConst::Int(9223372036854775808))
    );
    assert_eq!(
        constant("let x: u64 = 18446744073709551616.0 as u64;"),
        Some(TypedConst::Int(18446744073709551616))
    );
    assert_eq!(constant("let x: u8 = 255.0 as u8;"), Some(TypedConst::Int(255)));
    assert_eq!(errors(&main_with("let x: i64 = 9223372036854777856.0 as i64;")).len(), 1);
    assert_eq!(errors(&main_with("let x: u64 = 18446744073709555712.0 as u64;")).len(), 1);
    assert_eq!(errors(&main_with("let x: u8 = 256.0 as u8;")).len(), 1);
}
