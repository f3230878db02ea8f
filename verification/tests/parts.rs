use intentc::ast::{BinaryOp, Expr, Span, Stmt, Type, UnaryOp};
use intentc::construct::{mk_binary, mk_bool, mk_call, mk_if, mk_int, mk_ref_mut, mk_unary, mk_var};
use intentc::effects::{clear_constants_for, collect_branch_mutations, emit_current_scope_drops};
use intentc::ir::{TypedConst, TypedExprKind, TypedStmt};
use intentc::moves::{consume_if_moved_var, inject_branch_drops};
use intentc::numeric::{
    can_represent_all, channel_capacity_is_pow2, common_integer_type,
    eval_cast_constant_no_diagnostic, eval_integer_binary, eval_shift, value_fits_type,
};
use intentc::rewrite::{
    contains_break, drop_facts_mentioning, expr_mentions, is_structurally_true, negate,
    pin_var_to_version, pretty_expr, substitute_expr,
};
use intentc::scope::{
    ask, fresh_var, insert_current, lookup, name_position, pop_scope, push_scope, set_var, typed,
    version_get, version_put,
};
use intentc::state::{Answer, Context, Env, Query, State, VarInfo, Verdict};
use intentc::text::{int_text, nat_text};

fn at() -> Span {
    Span { start: 3, end: 5 }
}

fn var(name: &str) -> Expr {
    mk_var(name, at())
}

fn num(v: i128) -> Expr {
    mk_int(v, at())
}

fn binary(op: BinaryOp, left: Expr, right: Expr) -> Expr {
    mk_binary(op, left, right, at())
}

fn call(name: &str, args: Vec<Expr>) -> Expr {
    mk_call(name, at(), args, at())
}

fn empty_env() -> Env {
    Env { scopes: vec![Vec::new()], structs: Vec::new(), enums: Vec::new() }
}

fn state(env: Env, answers: Vec<Answer>) -> State {
    State { env, diagnostics: Vec::new(), facts: Vec::new(), answers, used: 0, pending: None }
}

fn context() -> Context {
    Context {
        signatures: Vec::new(),
        owning_structs: Vec::new(),
        owning_enums: Vec::new(),
        verify: false,
    }
}

fn vec_type() -> Type {
    Type::Vec(Box::new(Type::I64))
}

fn messages(st: &State) -> Vec<&str> {
    st.diagnostics.iter().map(|d| d.message.as_str()).collect()
}

#[test]
fn numbers_are_written_in_decimal() {
    assert_eq!(nat_text(0), "0");
    assert_eq!(nat_text(9070), "9070");
    assert_eq!(int_text(-12), "-12");
    assert_eq!(int_text(i128::MIN), "-170141183460469231731687303715884105728");
    assert_eq!(int_text(i128::MAX).parse::<i128>(), Ok(i128::MAX));
}

#[test]
fn negation_turns_comparisons_round() {
    let less = || binary(BinaryOp::Lt, var("a"), var("b"));
    assert_eq!(negate(&less()), binary(BinaryOp::Ge, var("a"), var("b")));
    assert_eq!(negate(&negate(&less())), less());
    assert_eq!(negate(&mk_bool(true, at())), mk_bool(false, at()));
    assert_eq!(negate(&var("a")), mk_unary(UnaryOp::Not, var("a"), at()));
    assert_eq!(negate(&negate(&var("a"))), var("a"));
    let both = || binary(BinaryOp::And, var("a"), var("b"));
    assert_eq!(negate(&both()), mk_unary(UnaryOp::Not, both(), at()));
}

#[test]
fn some_claims_are_true_by_their_form() {
    let sum = || binary(BinaryOp::Add, var("a"), num(1));
    assert!(is_structurally_true(&mk_bool(true, at())));
    assert!(is_structurally_true(&binary(BinaryOp::Le, sum(), sum())));
    assert!(!is_structurally_true(&binary(BinaryOp::Lt, sum(), sum())));
    assert!(is_structurally_true(&mk_unary(
        UnaryOp::Not,
        binary(BinaryOp::Lt, sum(), sum()),
        at(),
    )));
    assert!(!is_structurally_true(&binary(BinaryOp::Eq, var("a"), var("b"))));
    assert!(is_structurally_true(&binary(
        BinaryOp::Or,
        var("a"),
        binary(BinaryOp::Eq, var("b"), var("b")),
    )));
}

#[test]
fn facts_about_a_variable_are_forgotten() {
    let about = |name: &str| binary(BinaryOp::Eq, var(name), num(1));
    let hidden = call("f", vec![binary(BinaryOp::Add, num(2), var("x"))]);
    let facts = vec![about("x"), about("y"), hidden, about("z")];
    assert_eq!(drop_facts_mentioning(&facts, "x"), vec![about("y"), about("z")]);
    assert_eq!(drop_facts_mentioning(&facts, "w").len(), 4);
}

#[test]
fn pinned_reads_name_a_version() {
    let e = binary(BinaryOp::Add, var("xs"), call("f", vec![var("ys"), var("xs")]));
    let pinned = pin_var_to_version(&e, "xs", 7);
    assert_eq!(
        pinned,
        binary(BinaryOp::Add, var("xs#7"), call("f", vec![var("ys"), var("xs#7")])),
    );
    assert!(!expr_mentions(&pinned, "xs"));
    assert_eq!(pin_var_to_version(&pinned, "xs", 8), pinned);
}

#[test]
fn variables_are_replaced_at_once() {
    let e = binary(BinaryOp::Mul, var("x"), var("y"));
    let subs = vec![("x".to_string(), var("y")), ("y".to_string(), num(2))];
    assert_eq!(substitute_expr(&e, &subs), binary(BinaryOp::Mul, var("y"), num(2)));
    let unread = vec![("z".to_string(), num(9))];
    assert_eq!(substitute_expr(&e, &unread), e);
    assert_eq!(pretty_expr(&e), "(x * y)");
}

#[test]
fn a_break_leaves_the_innermost_loop() {
    let leave = || Stmt::Break { span: at() };
    let nested = Stmt::While {
        cond: mk_bool(true, at()),
        invariants: Vec::new(),
        body: vec![leave()],
        span: at(),
    };
    let branch = Stmt::If {
        cond: var("c"),
        then_body: Vec::new(),
        else_body: vec![leave()],
        span: at(),
    };
    assert!(contains_break(&vec![leave()]));
    assert!(!contains_break(&vec![nested]));
    assert!(contains_break(&vec![branch]));
    assert!(!contains_break(&Vec::new()));
}

#[test]
fn inner_bindings_hide_outer_ones() {
    let outer = fresh_var(Type::I64, Some(TypedConst::Int(1)), at());
    let inner = fresh_var(Type::Bool, None, at());
    let env = insert_current(empty_env(), "x", &outer);
    let env = push_scope(env);
    assert_eq!(lookup(&env, "x").unwrap().ty, Type::I64);
    let env = insert_current(env, "x", &inner);
    assert_eq!(lookup(&env, "x").unwrap().ty, Type::Bool);
    let changed = VarInfo { moved: Some(at()), ..fresh_var(Type::Bool, None, at()) };
    let env = set_var(env, "x", &changed);
    assert_eq!(lookup(&env, "x").unwrap().moved, Some(at()));
    let env = pop_scope(env);
    let left = lookup(&env, "x").unwrap();
    assert_eq!(left.ty, Type::I64);
    assert_eq!(left.moved, None);
    assert!(lookup(&env, "y").is_none());
}

#[test]
fn tables_are_ordered_by_name() {
    let table = version_put(&version_put(&version_put(&Vec::new(), "b", 1), "a", 2), "c", 3);
    assert_eq!(
        table,
        vec![("a".to_string(), 2), ("b".to_string(), 1), ("c".to_string(), 3)],
    );
    let table = version_put(&table, "b", 9);
    assert_eq!(table.len(), 3);
    assert_eq!(version_get(&table, "b"), Some(9));
    assert_eq!(version_get(&table, "a"), Some(2));
    assert_eq!(version_get(&table, "d"), None);
    let names = vec!["p".to_string(), "q".to_string(), "p".to_string()];
    assert_eq!(name_position(&names, "p", None), Some(0));
    assert_eq!(name_position(&names, "r", None), None);
}

#[test]
fn integer_types_hold_their_ranges() {
    assert!(value_fits_type(255, &Type::U8));
    assert!(!value_fits_type(256, &Type::U8));
    assert!(!value_fits_type(-1, &Type::U64));
    assert!(value_fits_type(-128, &Type::I8));
    assert!(can_represent_all(&Type::I64, &Type::U32));
    assert!(!can_represent_all(&Type::U64, &Type::I8));
    assert!(!can_represent_all(&Type::I64, &Type::U64));
}

#[test]
fn a_common_type_holds_both_operands() {
    assert_eq!(common_integer_type(&Type::I8, &Type::I32), Some(Type::I32));
    assert_eq!(common_integer_type(&Type::U32, &Type::I64), Some(Type::I64));
    assert_eq!(common_integer_type(&Type::I64, &Type::U32), Some(Type::I64));
    assert_eq!(common_integer_type(&Type::U64, &Type::I64), None);
    assert_eq!(common_integer_type(&Type::U8, &Type::U16), Some(Type::U16));
    assert_eq!(common_integer_type(&Type::Bool, &Type::U16), None);
}

#[test]
fn folded_values_fit_or_are_reported() {
    let (value, st) = eval_integer_binary(
        BinaryOp::Mul,
        -8,
        16,
        &Type::I8,
        at(),
        state(empty_env(), Vec::new()),
    );
    assert_eq!(value, Some(TypedConst::Int(-128)));
    assert!(st.diagnostics.is_empty());
    let (value, st) = eval_integer_binary(BinaryOp::Add, 100, 28, &Type::I8, at(), st);
    assert_eq!(value, None);
    assert_eq!(messages(&st), vec!["constant expression value 128 does not fit in i8"]);
    let (value, st) = eval_shift(BinaryOp::Shl, 1, 6, &Type::I8, at(), st);
    assert_eq!(value, Some(TypedConst::Int(64)));
    let (value, st) = eval_shift(BinaryOp::Shl, 1, 7, &Type::I8, at(), st);
    assert_eq!(value, None);
    assert_eq!(messages(&st)[1], "shift result value 128 does not fit in i8");
    let (value, st) = eval_shift(BinaryOp::Shr, -5, 1, &Type::I8, at(), st);
    assert_eq!(value, Some(TypedConst::Int(-3)));
    let (value, st) = eval_cast_constant_no_diagnostic(&TypedConst::Int(200), &Type::U8, st);
    assert_eq!(value, Some(TypedConst::Int(200)));
    let (value, _) = eval_cast_constant_no_diagnostic(&TypedConst::Int(200), &Type::I8, st);
    assert_eq!(value, None);
}

#[test]
fn capacities_are_powers_of_two() {
    assert!(channel_capacity_is_pow2(1));
    assert!(channel_capacity_is_pow2(4096));
    assert!(!channel_capacity_is_pow2(0));
    assert!(!channel_capacity_is_pow2(12));
}

#[test]
fn answers_are_used_in_order() {
    let question = |name: &str| Query::Satisfy {
        facts: vec![var(name)],
        vars: Vec::new(),
        versions: Vec::new(),
    };
    let answers = vec![Answer::Unsatisfiable(true), Answer::Verdict(Verdict::Proven)];
    let (first, st) = ask(question("a"), state(empty_env(), answers));
    assert!(matches!(first, Some(Answer::Unsatisfiable(true))));
    let (second, st) = ask(question("b"), st);
    assert!(matches!(second, Some(Answer::Verdict(Verdict::Proven))));
    assert!(st.pending.is_none());
    let (third, st) = ask(question("c"), st);
    assert!(third.is_none());
    let (_, st) = ask(question("d"), st);
    match st.pending {
        Some(Query::Satisfy { facts, .. }) => assert_eq!(facts, vec![var("c")]),
        _ => panic!("no question is pending"),
    }
}

#[test]
fn only_owned_values_are_dropped() {
    let moved = VarInfo { moved: Some(at()), ..fresh_var(vec_type(), None, at()) };
    let view = VarInfo { no_drop: true, ..fresh_var(vec_type(), None, at()) };
    let env = insert_current(empty_env(), "outer", &fresh_var(vec_type(), None, at()));
    let env = push_scope(env);
    let env = insert_current(env, "gone", &moved);
    let env = insert_current(env, "n", &fresh_var(Type::I64, None, at()));
    let env = insert_current(env, "owned", &fresh_var(vec_type(), None, at()));
    let env = insert_current(env, "task", &fresh_var(Type::Task, None, at()));
    let env = insert_current(env, "view", &view);
    let drops = emit_current_scope_drops(&env, &context(), vec![TypedStmt::Break]);
    assert_eq!(
        drops,
        vec![
            TypedStmt::Break,
            TypedStmt::Drop { name: "owned".to_string(), ty: vec_type(), moved_fields: Vec::new() },
        ],
    );
}

#[test]
fn branches_drop_what_they_do_not_yield() {
    let owner = |name: &str| {
        typed(TypedExprKind::Var(name.to_string()), vec_type(), None, at())
    };
    let choice = typed(
        TypedExprKind::IfExpr {
            cond: Box::new(typed(TypedExprKind::Bool(true), Type::Bool, None, at())),
            then_value: Box::new(owner("a")),
            else_value: Box::new(owner("b")),
        },
        vec_type(),
        None,
        at(),
    );
    let settled = inject_branch_drops(&choice, &context());
    let dropping = |name: &str, kept: &str| {
        let stmts = vec![TypedStmt::Drop {
            name: name.to_string(),
            ty: vec_type(),
            moved_fields: Vec::new(),
        }];
        let kind = TypedExprKind::Block { stmts, tail: Box::new(owner(kept)) };
        typed(kind, vec_type(), None, at())
    };
    match settled.kind {
        TypedExprKind::IfExpr { then_value, else_value, .. } => {
            assert_eq!(*then_value, dropping("b", "a"));
            assert_eq!(*else_value, dropping("a", "b"));
        }
        _ => panic!("the choice is gone"),
    }
}

#[test]
fn a_choice_moves_both_of_its_values() {
    let env = insert_current(empty_env(), "a", &fresh_var(vec_type(), None, at()));
    let env = insert_current(env, "b", &fresh_var(vec_type(), None, at()));
    let env = insert_current(env, "c", &fresh_var(vec_type(), None, at()));
    let choice = mk_if(mk_bool(true, at()), var("a"), var("b"), at());
    let env = consume_if_moved_var(&choice, &vec_type(), &context(), env);
    assert_eq!(lookup(&env, "a").unwrap().moved, Some(at()));
    assert_eq!(lookup(&env, "b").unwrap().moved, Some(at()));
    assert_eq!(lookup(&env, "c").unwrap().moved, None);
    let env = consume_if_moved_var(&var("c"), &Type::I64, &context(), env);
    assert_eq!(lookup(&env, "c").unwrap().moved, None);
}

#[test]
fn values_that_may_change_are_forgotten() {
    let known = |v: i128| fresh_var(Type::I64, Some(TypedConst::Int(v)), at());
    let env = insert_current(empty_env(), "x", &known(1));
    let env = insert_current(env, "y", &known(2));
    let env = insert_current(env, "z", &known(3));
    let body = vec![
        Stmt::Assign { name: "x".to_string(), expr: var("z"), span: at() },
        Stmt::Let {
            name: "w".to_string(),
            annotation: None,
            expr: call("bump", vec![mk_ref_mut(var("y"), at())]),
            span: at(),
        },
    ];
    let names = collect_branch_mutations(&body);
    assert_eq!(names, vec!["x".to_string(), "y".to_string()]);
    let env = clear_constants_for(env, &names);
    assert_eq!(lookup(&env, "x").unwrap().constant, None);
    assert_eq!(lookup(&env, "y").unwrap().constant, None);
    assert_eq!(lookup(&env, "z").unwrap().constant, Some(TypedConst::Int(3)));
}
