use saltwater_parser::ast::{items_of, Category, Node, NodeKind};
use saltwater_parser::error::DiagCode;
use saltwater_parser::fold::{BinaryOp, Constant, IntConst, UnaryOp};
use saltwater_parser::guard::MAX_DEPTH_DEBUG;
use saltwater_parser::target::{IntRank, Target};
use saltwater_parser::types::{
    TypeNode, TY_CHAR, TY_DOUBLE, TY_ERROR, TY_INT, TY_LONG, TY_UINT, TY_ULONG, TY_VOID,
};
use saltwater_parser::fold::Folded;
use saltwater_parser::unit::{compile, fold, Unit};

fn unit(src: &str) -> Unit {
    match compile(src.as_bytes(), 0, Target::lp64(), 1000) {
        Ok(u) => u,
        Err(_) => panic!("depth limit passed"),
    }
}

fn errors(u: &Unit) -> Vec<DiagCode> {
    (0..u.handler.error_count()).map(|i| u.handler.error_at(i).code).collect()
}

fn warnings(u: &Unit) -> Vec<DiagCode> {
    (0..u.handler.warning_count()).map(|i| u.handler.warning_at(i).code).collect()
}

/// The declarations of the `i`-th external declaration.
fn group(u: &Unit, i: usize) -> Vec<Node> {
    match u.nodes[u.items[i]].kind {
        NodeKind::Group { items } => items_of(&u.nodes, items).iter().map(|&d| u.nodes[d]).collect(),
        other => panic!("no declaration: {:?}", other),
    }
}

/// The statements of the body of the function that is the `i`-th external
/// declaration.
fn body(u: &Unit, i: usize) -> Vec<Node> {
    match u.nodes[u.items[i]].kind {
        NodeKind::Function { body, .. } => match u.nodes[body].kind {
            NodeKind::Compound { items } => {
                items_of(&u.nodes, items).iter().map(|&s| u.nodes[s]).collect()
            }
            other => panic!("no block: {:?}", other),
        },
        other => panic!("no function: {:?}", other),
    }
}

fn expr_of(u: &Unit, statement: Node) -> Node {
    match statement.kind {
        NodeKind::ExprStmt { expr } => u.nodes[expr],
        other => panic!("no expression statement: {:?}", other),
    }
}

fn init_of(u: &Unit, declaration: Node) -> Node {
    match declaration.kind {
        NodeKind::Declare { init, .. } => u.nodes[init],
        other => panic!("no declaration: {:?}", other),
    }
}

fn value(n: Node) -> i128 {
    match n.constant {
        Some(Constant::Int(c)) => c.value,
        other => panic!("no integer constant: {:?}", other),
    }
}

#[test]
fn array_declaration_and_subscript() {
    let u = unit("int a[3] = {1,2,3}; int b = a[5];");
    assert_eq!(errors(&u), vec![]);
    assert_eq!(warnings(&u), vec![]);
    assert_eq!(u.items.len(), 2);
    let a = group(&u, 0)[0];
    assert_eq!(u.types.get(a.ty), TypeNode::Array { of: TY_INT, known: true, len: 3 });
    let list = init_of(&u, a);
    let members = match list.kind {
        NodeKind::InitList { items } => items_of(&u.nodes, items),
        other => panic!("no list: {:?}", other),
    };
    assert_eq!(members.iter().map(|&m| value(u.nodes[m])).collect::<Vec<_>>(), vec![1, 2, 3]);
    let b = group(&u, 1)[0];
    assert_eq!(b.ty, TY_INT);
    let init = init_of(&u, b);
    assert_eq!(init.ty, TY_INT);
    assert_eq!(init.category, Category::Object);
    assert_eq!(init.constant, None);
    match init.kind {
        NodeKind::Index { base, index } => {
            assert_eq!(u.types.get(u.nodes[base].ty), TypeNode::Pointer { to: TY_INT });
            assert_eq!(value(u.nodes[index]), 5);
        }
        other => panic!("no subscript: {:?}", other),
    }
}

#[test]
fn undeclared_identifier_is_recorded_and_parsing_goes_on() {
    let u = unit("int f(void) { undeclared + 1; return 2; }");
    assert_eq!(errors(&u), vec![DiagCode::UndeclaredIdentifier]);
    let statements = body(&u, 0);
    assert_eq!(statements.len(), 2);
    let sum = expr_of(&u, statements[0]);
    assert_eq!(sum.ty, TY_ERROR);
    match sum.kind {
        NodeKind::Binary { operator, left, right } => {
            assert_eq!(operator, BinaryOp::Add);
            assert_eq!(u.nodes[left].kind, NodeKind::Error);
            assert_eq!(u.nodes[left].ty, TY_ERROR);
            assert_eq!(value(u.nodes[right]), 1);
        }
        other => panic!("no sum: {:?}", other),
    }
    match statements[1].kind {
        NodeKind::Return { value: v } => assert_eq!(value(u.nodes[v]), 2),
        other => panic!("no return: {:?}", other),
    }
}

#[test]
fn signed_overflow_in_a_constant_is_flagged() {
    let u = unit("int x = 2147483647 + 1;");
    assert_eq!(errors(&u), vec![]);
    assert_eq!(warnings(&u), vec![DiagCode::SignedOverflow]);
    let init = init_of(&u, group(&u, 0)[0]);
    assert_eq!(
        init.constant,
        Some(Constant::Int(IntConst { width: 32, signed: true, value: -2147483648, overflow: true }))
    );
}

#[test]
fn constants_are_folded_as_they_are_parsed() {
    let u = unit("long x = (1 + 2) * 3 - 10 / 4 % 2 << 2 | 1; int y = 1 < 2 && 3 != 3 || !0; int z = 5 > 3 ? -7 : ~7;");
    assert_eq!(errors(&u), vec![]);
    let x = init_of(&u, group(&u, 0)[0]);
    assert_eq!(x.ty, TY_LONG);
    assert_eq!(value(x), 37);
    assert_eq!(value(init_of(&u, group(&u, 1)[0])), 1);
    assert_eq!(value(init_of(&u, group(&u, 2)[0])), -7);
}

#[test]
fn division_by_constant_zero_is_an_error() {
    let u = unit("int z = 1 / 0; int w = 5 % (2 - 2); int ok = 1;");
    assert_eq!(errors(&u), vec![DiagCode::DivisionByZero, DiagCode::DivisionByZero]);
    assert_eq!(init_of(&u, group(&u, 0)[0]).constant, None);
    assert_eq!(value(init_of(&u, group(&u, 2)[0])), 1);
}

#[test]
fn nested_scopes_shadow_and_restore() {
    let u = unit("int x; void f(void) { x; { char x; x; } x; }");
    assert_eq!(errors(&u), vec![]);
    let statements = body(&u, 1);
    assert_eq!(expr_of(&u, statements[0]).ty, TY_INT);
    let inner = match statements[1].kind {
        NodeKind::Compound { items } => items_of(&u.nodes, items),
        other => panic!("no block: {:?}", other),
    };
    assert_eq!(expr_of(&u, u.nodes[inner[1]]).ty, TY_CHAR);
    assert_eq!(expr_of(&u, statements[2]).ty, TY_INT);
}

#[test]
fn a_name_is_gone_when_its_block_ends() {
    let u = unit("void f(void) { { int y; y; } y; }");
    assert_eq!(errors(&u), vec![DiagCode::UndeclaredIdentifier]);
    let statements = body(&u, 0);
    assert_eq!(expr_of(&u, statements[1]).ty, TY_ERROR);
}

#[test]
fn parsing_twice_gives_the_same_tree() {
    let src = "int a[2]; int g(int n, char *s) { for (int i = 0; i < n; i++) a[i % 2] = s[i]; return a[0] ? n : -n; } int bad = q;";
    let first = unit(src);
    let second = unit(src);
    assert_eq!(first.nodes, second.nodes);
    assert_eq!(first.items, second.items);
    assert_eq!(first.types.as_vec(), second.types.as_vec());
    assert_eq!(errors(&first), errors(&second));
    assert_eq!(errors(&first), vec![DiagCode::UndeclaredIdentifier]);
}

fn nested(n: usize) -> String {
    format!("int y = undeclared; int x = {}1{};", "(".repeat(n), ")".repeat(n))
}

#[test]
fn nesting_below_the_limit_parses() {
    let src = nested(47);
    let u = compile(src.as_bytes(), 0, Target::lp64(), 50).ok().unwrap();
    assert_eq!(errors(&u), vec![DiagCode::UndeclaredIdentifier]);
    assert_eq!(value(init_of(&u, group(&u, 1)[0])), 1);
}

#[test]
fn nesting_past_the_limit_is_fatal() {
    let src = nested(48);
    let report = compile(src.as_bytes(), 0, Target::lp64(), 50).err().unwrap();
    assert_eq!(report.exit_status(), 102);
    assert_eq!(report.depth, 51);
    assert_eq!(report.max_depth, 50);
    assert_eq!(report.headline(), "fatal: maximum recursion depth exceeded (51 > 50)");
    assert_eq!(
        report.pending_lines(),
        vec!["pending errors:".to_string(), "- error: use of undeclared identifier".to_string()]
    );
}

#[test]
fn nested_unary_operators_count_as_depth() {
    let deep = format!("int x = {}1;", "- ".repeat(48));
    assert!(compile(deep.as_bytes(), 0, Target::lp64(), 50).is_err());
    let shallow = format!("int x = {}1;", "- ".repeat(47));
    let u = compile(shallow.as_bytes(), 0, Target::lp64(), 50).ok().unwrap();
    assert_eq!(value(init_of(&u, group(&u, 0)[0])), -1);
    let paired = format!("int x = {}1;", "-".repeat(48));
    assert!(compile(paired.as_bytes(), 0, Target::lp64(), 50).is_ok());
}

#[test]
fn nested_statements_count_as_depth() {
    let src = format!("void f(void) {}", "{".repeat(60) + &"}".repeat(60));
    assert!(compile(src.as_bytes(), 0, Target::lp64(), 50).is_err());
    assert!(compile(src.as_bytes(), 0, Target::lp64(), 100).is_ok());
}

#[test]
fn fatal_report_without_pending_diagnostics() {
    let src = format!("int x = {}1{};", "(".repeat(100), ")".repeat(100));
    let report = compile(src.as_bytes(), 0, Target::lp64(), 10).err().unwrap();
    assert_eq!(report.headline(), "fatal: maximum recursion depth exceeded (11 > 10)");
    assert!(report.pending_lines().is_empty());
}

#[test]
fn syntax_errors_do_not_stop_the_parse() {
    let u = unit("int x = ; int y = 2; int f(void) { int a b c; return y; } @ ; int z;");
    assert!(u.handler.error_count() >= 3);
    assert_eq!(errors(&u)[0], DiagCode::InvalidCharacter);
    assert_eq!(u.items.len(), 5);
    assert_eq!(value(init_of(&u, group(&u, 1)[0])), 2);
    let statements = body(&u, 2);
    match statements[statements.len() - 1].kind {
        NodeKind::Return { value } => assert_eq!(u.nodes[value].ty, TY_INT),
        other => panic!("no return: {:?}", other),
    }
    assert_eq!(group(&u, 4)[0].ty, TY_INT);
}

#[test]
fn missing_semicolon_resumes_at_the_next_statement() {
    let u = unit("void f(void) { int a; a = 1 a = 2; a = 3; }");
    assert_eq!(errors(&u), vec![DiagCode::MissingToken]);
    let statements = body(&u, 0);
    assert_eq!(statements.len(), 3);
    match expr_of(&u, statements[2]).kind {
        NodeKind::Assign { value: v, .. } => assert_eq!(value(u.nodes[v]), 3),
        other => panic!("no assignment: {:?}", other),
    }
}

fn type_of_last(src: &str) -> (TypeNode, Vec<DiagCode>, Vec<DiagCode>) {
    let u = unit(src);
    let statements = body(&u, u.items.len() - 1);
    let e = expr_of(&u, statements[statements.len() - 1]);
    (u.types.get(e.ty), errors(&u), warnings(&u))
}

fn int_type(rank: IntRank, signed: bool) -> TypeNode {
    TypeNode::Int { rank, signed }
}

#[test]
fn usual_arithmetic_conversions() {
    let t = |e: &str| {
        let src = format!(
            "char c; short s; int i; unsigned u; long l; unsigned long ul; long long ll; float f; double d; void g(void) {{ {}; }}",
            e
        );
        let (ty, errors, _) = type_of_last(&src);
        assert_eq!(errors, vec![], "{}", e);
        ty
    };
    assert_eq!(t("c + c"), int_type(IntRank::Int, true));
    assert_eq!(t("c + s"), int_type(IntRank::Int, true));
    assert_eq!(t("i + u"), int_type(IntRank::Int, false));
    assert_eq!(t("u + l"), int_type(IntRank::Long, true));
    assert_eq!(t("l + ul"), int_type(IntRank::Long, false));
    assert_eq!(t("ul + ll"), int_type(IntRank::LongLong, false));
    assert_eq!(t("i * f"), TypeNode::Float { double: false });
    assert_eq!(t("f / d"), TypeNode::Float { double: true });
    assert_eq!(t("c << l"), int_type(IntRank::Int, true));
    assert_eq!(t("l < u"), int_type(IntRank::Int, true));
    assert_eq!(t("f && c"), int_type(IntRank::Int, true));
    assert_eq!(t("-c"), int_type(IntRank::Int, true));
    assert_eq!(t("!d"), int_type(IntRank::Int, true));
    assert_eq!(t("~u"), int_type(IntRank::Int, false));
    assert_eq!(t("i ? c : l"), int_type(IntRank::Long, true));
    assert_eq!(t("sizeof c"), int_type(IntRank::Long, false));
    assert_eq!(t("(short)d"), int_type(IntRank::Short, true));
}

#[test]
fn operands_are_converted_to_the_common_type() {
    let u = unit("char c; long l; void g(void) { c + l; }");
    let sum = expr_of(&u, body(&u, 2)[0]);
    assert_eq!(sum.ty, TY_LONG);
    match sum.kind {
        NodeKind::Binary { left, right, .. } => {
            assert_eq!(u.nodes[left].ty, TY_LONG);
            match u.nodes[left].kind {
                NodeKind::Convert { operand } => assert_eq!(u.nodes[operand].ty, TY_CHAR),
                other => panic!("no conversion: {:?}", other),
            }
            assert!(matches!(u.nodes[right].kind, NodeKind::Ident { .. }));
        }
        other => panic!("no sum: {:?}", other),
    }
}

#[test]
fn pointer_arithmetic() {
    let t = |e: &str| {
        let src = format!(
            "int *p; int *q; int a[4]; void *v; int f(int); void g(void) {{ {}; }}",
            e
        );
        type_of_last(&src)
    };
    let int_pointer = TypeNode::Pointer { to: TY_INT };
    assert_eq!(t("p + 1").0, int_pointer);
    assert_eq!(t("1 + p").0, int_pointer);
    assert_eq!(t("p - 1").0, int_pointer);
    assert_eq!(t("p - q").0, int_type(IntRank::Long, true));
    assert_eq!(t("a + 1").0, int_pointer);
    assert_eq!(t("*p").0, int_type(IntRank::Int, true));
    assert_eq!(t("a[2]").0, int_type(IntRank::Int, true));
    assert_eq!(t("2[a]").0, int_type(IntRank::Int, true));
    assert_eq!(t("p == 0").0, int_type(IntRank::Int, true));
    assert_eq!(t("p == v").0, int_type(IntRank::Int, true));
    assert_eq!(t("p < q").0, int_type(IntRank::Int, true));
    assert_eq!(t("f(1)").0, int_type(IntRank::Int, true));
    assert_eq!(t("p++").0, int_pointer);
    assert_eq!(t("&a[1]").0, int_pointer);
    assert_eq!(t("p + q"), (TypeNode::Error, vec![DiagCode::TypeMismatch], vec![]));
    assert_eq!(t("v + 1"), (TypeNode::Error, vec![DiagCode::TypeMismatch], vec![]));
    assert_eq!(t("p * 2"), (TypeNode::Error, vec![DiagCode::TypeMismatch], vec![]));
    assert_eq!(t("p == 1"), (TypeNode::Error, vec![DiagCode::TypeMismatch], vec![]));
    assert_eq!(t("*v").1, vec![]);
    assert_eq!(t("p[v]"), (TypeNode::Error, vec![DiagCode::TypeMismatch], vec![]));
}

#[test]
fn assignment_rules() {
    let t = |e: &str| {
        let src = format!(
            "int i; char c; int *p; char *s; void *v; const int k = 1; int a[2]; double d; void g(void) {{ {}; }}",
            e
        );
        type_of_last(&src)
    };
    assert_eq!(t("i = 1"), (int_type(IntRank::Int, true), vec![], vec![]));
    assert_eq!(t("c = 65"), (int_type(IntRank::Char, true), vec![], vec![]));
    assert_eq!(t("c = 1000"), (int_type(IntRank::Char, true), vec![], vec![DiagCode::LossyConversion]));
    assert_eq!(t("c = i"), (int_type(IntRank::Char, true), vec![], vec![DiagCode::LossyConversion]));
    assert_eq!(t("i = d"), (int_type(IntRank::Int, true), vec![], vec![DiagCode::LossyConversion]));
    assert_eq!(t("d = i"), (TypeNode::Float { double: true }, vec![], vec![]));
    assert_eq!(t("p = 0").1, vec![]);
    assert_eq!(t("p = v").1, vec![]);
    assert_eq!(t("v = p").1, vec![]);
    assert_eq!(t("p = a").1, vec![]);
    assert_eq!(t("p = s").1, vec![DiagCode::TypeMismatch]);
    assert_eq!(t("p = 1").1, vec![DiagCode::TypeMismatch]);
    assert_eq!(t("i = p").1, vec![DiagCode::TypeMismatch]);
    assert_eq!(t("1 = i"), (TypeNode::Error, vec![DiagCode::InvalidLvalue], vec![]));
    assert_eq!(t("k = 2"), (TypeNode::Error, vec![DiagCode::InvalidLvalue], vec![]));
    assert_eq!(t("a = p"), (TypeNode::Error, vec![DiagCode::InvalidLvalue], vec![]));
    assert_eq!(t("i + 1 = 2"), (TypeNode::Error, vec![DiagCode::InvalidLvalue], vec![]));
    assert_eq!(t("i += 2"), (int_type(IntRank::Int, true), vec![], vec![]));
    assert_eq!(t("p += 2").1, vec![]);
    assert_eq!(t("p *= 2").1, vec![DiagCode::TypeMismatch]);
    assert_eq!(t("i <<= 1").1, vec![]);
    assert_eq!(t("++k").1, vec![DiagCode::InvalidLvalue]);
    assert_eq!(t("&1").1, vec![DiagCode::InvalidLvalue]);
    assert_eq!(t("i = c = 1"), (int_type(IntRank::Int, true), vec![], vec![]));
}

#[test]
fn calls_are_checked_against_the_prototype() {
    let t = |e: &str| {
        let src = format!(
            "int f(int a, char *s); int v(int a, ...); void n(void); int any(); int i; void g(void) {{ {}; }}",
            e
        );
        type_of_last(&src)
    };
    assert_eq!(t("f(1, \"x\")"), (int_type(IntRank::Int, true), vec![], vec![]));
    assert_eq!(t("f(1)").1, vec![DiagCode::TypeMismatch]);
    assert_eq!(t("f(1, \"x\", 3)").1, vec![DiagCode::TypeMismatch]);
    assert_eq!(t("f(\"x\", \"y\")").1, vec![DiagCode::TypeMismatch]);
    assert_eq!(t("v(1)").1, vec![]);
    assert_eq!(t("v(1, 2, \"three\", 4.0)").1, vec![]);
    assert_eq!(t("v()").1, vec![DiagCode::TypeMismatch]);
    assert_eq!(t("n()"), (TypeNode::Void, vec![], vec![]));
    assert_eq!(t("n(1)").1, vec![DiagCode::TypeMismatch]);
    assert_eq!(t("any(1, 2)").1, vec![]);
    assert_eq!(t("i(1)"), (TypeNode::Error, vec![DiagCode::TypeMismatch], vec![]));
    assert_eq!(t("(*f)(1, 0)").1, vec![]);
    assert_eq!(t("(&f)(1, 0)").1, vec![]);
    assert_eq!(t("f(1.5, 0)"), (int_type(IntRank::Int, true), vec![], vec![DiagCode::LossyConversion]));
}

#[test]
fn declarations_are_checked() {
    assert_eq!(errors(&unit("int x; int x;")), vec![]);
    assert_eq!(errors(&unit("int x; char x;")), vec![DiagCode::Redefinition]);
    assert_eq!(errors(&unit("int a[]; int a[3];")), vec![]);
    assert_eq!(errors(&unit("int f(int); int f(int);")), vec![]);
    assert_eq!(errors(&unit("int f(int); int f(char);")), vec![DiagCode::Redefinition]);
    assert_eq!(errors(&unit("void v;")), vec![DiagCode::IncompleteType]);
    assert_eq!(errors(&unit("void a[3];")), vec![DiagCode::IncompleteType]);
    assert_eq!(errors(&unit("int n; int a[n];")), vec![DiagCode::NotConstant]);
    assert_eq!(errors(&unit("int a[-1];")), vec![DiagCode::TypeMismatch]);
    assert_eq!(errors(&unit("int g(void); static int s = g();")), vec![DiagCode::NotConstant]);
    assert_eq!(errors(&unit("static int s = 2 * 3;")), vec![]);
    assert_eq!(errors(&unit("short long x;")), vec![DiagCode::UnexpectedToken]);
    assert_eq!(errors(&unit("static extern int x;")), vec![DiagCode::UnexpectedToken]);
    assert_eq!(errors(&unit("int f(void)[3];")), vec![DiagCode::MissingToken]);
    assert_eq!(errors(&unit("int a[2](void);")), vec![DiagCode::IncompleteType]);
    assert_eq!(errors(&unit("int;")), vec![]);
}

#[test]
fn declared_types() {
    let u = unit("unsigned long long a; char *b[2][3]; int g(int a[], void h(int)); char s[] = \"hey\"; int n[] = {1, 2}; long double d; signed char c;");
    assert_eq!(errors(&u), vec![]);
    let ty = |i: usize| u.types.get(group(&u, i)[0].ty);
    assert_eq!(ty(0), int_type(IntRank::LongLong, false));
    match ty(1) {
        TypeNode::Array { of, known: true, len: 2 } => match u.types.get(of) {
            TypeNode::Array { of, known: true, len: 3 } => {
                assert_eq!(u.types.get(of), TypeNode::Pointer { to: TY_CHAR })
            }
            other => panic!("{:?}", other),
        },
        other => panic!("{:?}", other),
    }
    match ty(2) {
        TypeNode::Function { ret, params, variadic: false } => {
            assert_eq!(ret, TY_INT);
            match u.types.get(params) {
                TypeNode::Params { head, tail } => {
                    assert_eq!(u.types.get(head), TypeNode::Pointer { to: TY_INT });
                    match u.types.get(tail) {
                        TypeNode::Params { head, tail } => {
                            match u.types.get(head) {
                                TypeNode::Pointer { to } => {
                                    assert!(matches!(u.types.get(to), TypeNode::Function { ret: TY_VOID, .. }))
                                }
                                other => panic!("{:?}", other),
                            }
                            assert_eq!(u.types.get(tail), TypeNode::NoParams);
                        }
                        other => panic!("{:?}", other),
                    }
                }
                other => panic!("{:?}", other),
            }
        }
        other => panic!("{:?}", other),
    }
    assert_eq!(ty(3), TypeNode::Array { of: TY_CHAR, known: true, len: 4 });
    assert_eq!(ty(4), TypeNode::Array { of: TY_INT, known: true, len: 2 });
    assert_eq!(group(&u, 5)[0].ty, TY_DOUBLE);
    assert_eq!(ty(6), int_type(IntRank::Char, true));
}

#[test]
fn sizeof_is_a_constant() {
    let u = unit("int a[sizeof(long) + sizeof(char *)]; unsigned long n = sizeof a; int bad = sizeof(void);");
    assert_eq!(errors(&u), vec![DiagCode::IncompleteType]);
    assert_eq!(u.types.get(group(&u, 0)[0].ty), TypeNode::Array { of: TY_INT, known: true, len: 16 });
    let n = init_of(&u, group(&u, 1)[0]);
    assert_eq!(n.ty, TY_ULONG);
    assert_eq!(value(n), 64);
    let narrow = compile(b"int x = sizeof(long) + sizeof(int *);", 0, Target::ilp32(), 100).ok().unwrap();
    assert_eq!(value(init_of(&narrow, group(&narrow, 0)[0])), 8);
}

#[test]
fn statements() {
    let u = unit(
        "int f(int n) { int s = 0; while (n > 0) { s += n; n--; } do s++; while (s < 10); \
         for (;;) { if (s) break; else continue; } \
         switch (n) { case 1 + 1: return s; default: ; } ; return s; }",
    );
    assert_eq!(errors(&u), vec![]);
    let statements = body(&u, 0);
    let kinds: Vec<&str> = statements
        .iter()
        .map(|s| match s.kind {
            NodeKind::Group { .. } => "declaration",
            NodeKind::While { .. } => "while",
            NodeKind::DoWhile { .. } => "do",
            NodeKind::For { .. } => "for",
            NodeKind::Switch { .. } => "switch",
            NodeKind::Empty => "empty",
            NodeKind::Return { .. } => "return",
            _ => "other",
        })
        .collect();
    assert_eq!(kinds, vec!["declaration", "while", "do", "for", "switch", "empty", "return"]);
    match statements[4].kind {
        NodeKind::Switch { body, .. } => match u.nodes[body].kind {
            NodeKind::Compound { items } => {
                let inner = items_of(&u.nodes, items);
                assert_eq!(inner.len(), 2);
                assert!(matches!(u.nodes[inner[0]].kind, NodeKind::Case { label: 2, .. }));
                assert!(matches!(u.nodes[inner[1]].kind, NodeKind::Default { .. }));
            }
            other => panic!("{:?}", other),
        },
        other => panic!("{:?}", other),
    }
}

#[test]
fn statement_rules() {
    let e = |body: &str| errors(&unit(&format!("int i; int *p; double d; int a[2]; void v(void) {{ {} }} ", body)));
    assert_eq!(e("return;"), vec![]);
    assert_eq!(e("return 1;"), vec![DiagCode::TypeMismatch]);
    assert_eq!(e("if (p) ; while (d) ; for (; a; ) ;"), vec![]);
    assert_eq!(e("if (v()) ;"), vec![DiagCode::TypeMismatch]);
    assert_eq!(e("switch (d) ;"), vec![DiagCode::TypeMismatch]);
    assert_eq!(e("switch (i) { case i: ; }"), vec![DiagCode::NotConstant]);
    assert_eq!(e("for (int k = 0; k < 2; k++) ; k;"), vec![DiagCode::UndeclaredIdentifier]);
    assert_eq!(e("do ; until (1);").len() >= 1, true);
    assert_eq!(errors(&unit("int f(void) { return; }")), vec![DiagCode::TypeMismatch]);
    assert_eq!(errors(&unit("int *f(void) { return 0; }")), vec![]);
    assert_eq!(errors(&unit("int f(int a, int b) { return a + b; } int g(void) { return f(1, 2) + a; }")),
        vec![DiagCode::UndeclaredIdentifier]);
}

#[test]
fn faulty_operands_do_not_cascade() {
    let u = unit("void f(void) { int i; (q + 1) * 2 - i; -q; q[1]; q(1, 2); i = q; *q; sizeof q; (char)q; q ? 1 : 2; }");
    assert_eq!(errors(&u), vec![DiagCode::UndeclaredIdentifier; 9]);
    assert_eq!(warnings(&u), vec![]);
}

#[test]
fn casts_and_literals() {
    let u = unit("void f(void) { (char)300; (unsigned)-1; (int *)0; (void)1; 'a'; \"hi\"; 1.5; 2.5f; 10u; (double *)1.5; }");
    assert_eq!(errors(&u), vec![DiagCode::TypeMismatch]);
    let statements = body(&u, 0);
    assert_eq!(value(expr_of(&u, statements[0])), 44);
    assert_eq!(value(expr_of(&u, statements[1])), 4294967295);
    assert_eq!(u.types.get(expr_of(&u, statements[2]).ty), TypeNode::Pointer { to: TY_INT });
    assert_eq!(expr_of(&u, statements[3]).ty, TY_VOID);
    assert_eq!(value(expr_of(&u, statements[4])), 97);
    assert_eq!(u.types.get(expr_of(&u, statements[5]).ty), TypeNode::Array { of: TY_CHAR, known: true, len: 3 });
    assert_eq!(expr_of(&u, statements[6]).ty, TY_DOUBLE);
    assert_eq!(expr_of(&u, statements[8]).ty, TY_UINT);
    match expr_of(&u, statements[1]).kind {
        NodeKind::Cast { operand } => {
            assert!(matches!(u.nodes[operand].kind, NodeKind::Unary { op: UnaryOp::Neg, .. }))
        }
        other => panic!("{:?}", other),
    }
}

#[test]
fn lexical_errors_come_first_among_the_diagnostics() {
    let u = unit("int x = y; int z = 'ab';");
    assert_eq!(errors(&u)[0], DiagCode::UnterminatedChar);
    assert!(errors(&u).contains(&DiagCode::UndeclaredIdentifier));
}

#[test]
fn empty_translation_unit() {
    let u = unit("  /* nothing */ ");
    assert_eq!(u.items.len(), 0);
    assert_eq!(u.nodes.len(), 1);
    assert_eq!(u.nodes[0].kind, NodeKind::Nil);
    assert_eq!(errors(&u), vec![]);
}

#[test]
fn comma_operator() {
    let u = unit("void f(void) { int i; int j; double d; for (i = 0, j = 1; i < j; i++, j--) ; i = 1, d; }");
    assert_eq!(errors(&u), vec![]);
    let statements = body(&u, 0);
    let last = expr_of(&u, statements[statements.len() - 1]);
    assert_eq!(last.ty, TY_DOUBLE);
    assert_eq!(last.constant, None);
    match last.kind {
        NodeKind::Comma { left, right } => {
            assert!(matches!(u.nodes[left].kind, NodeKind::Assign { .. }));
            assert!(matches!(u.nodes[right].kind, NodeKind::Ident { .. }));
        }
        other => panic!("no comma: {:?}", other),
    }
    let u = unit("int f(int a, int b); int g(void) { return f((1, 2), 3); }");
    assert_eq!(errors(&u), vec![]);
    let u = unit("int a[(1, 2)];");
    assert_eq!(errors(&u), vec![DiagCode::NotConstant]);
}

#[test]
fn nesting_close_to_the_debug_limit() {
    let n = MAX_DEPTH_DEBUG - 3;
    let src = format!("int x = {}1{};", "(".repeat(n), ")".repeat(n));
    let u = compile(src.as_bytes(), 0, Target::lp64(), MAX_DEPTH_DEBUG).ok().unwrap();
    assert_eq!(errors(&u), vec![]);
    assert_eq!(value(init_of(&u, group(&u, 0)[0])), 1);
    let src = format!("int x = {}1{};", "(".repeat(n + 1), ")".repeat(n + 1));
    assert!(compile(src.as_bytes(), 0, Target::lp64(), MAX_DEPTH_DEBUG).is_err());
}

#[test]
fn long_chains_do_not_nest() {
    let sum = format!("int x = 0{};", " + 1".repeat(20000));
    let u = compile(sum.as_bytes(), 0, Target::lp64(), 20).ok().unwrap();
    assert_eq!(value(init_of(&u, group(&u, 0)[0])), 20000);
    let calls = format!("int f(int); int x(void) {{ return f(1){}; }}", " + f(2)".repeat(5000));
    assert!(compile(calls.as_bytes(), 0, Target::lp64(), 20).is_ok());
    let statements = format!("void f(void) {{ {} }}", "{ ; } ".repeat(5000));
    assert!(compile(statements.as_bytes(), 0, Target::lp64(), 20).is_ok());
    let declarations = "int a, b, c = 1; ".repeat(3000);
    assert!(compile(declarations.as_bytes(), 0, Target::lp64(), 20).is_ok());
}

#[test]
fn fold_reads_the_value_of_a_constant_expression() {
    let u = unit("int x; void f(void) { 2147483647 + 1; x + 1; 6 * 7; }");
    let statements = body(&u, 1);
    let id = |i: usize| match statements[i].kind {
        NodeKind::ExprStmt { expr } => expr,
        other => panic!("no expression statement: {:?}", other),
    };
    assert_eq!(
        fold(&u.nodes, id(0)),
        Folded::Value(Constant::Int(IntConst { width: 32, signed: true, value: -2147483648, overflow: true }))
    );
    assert_eq!(fold(&u.nodes, id(1)), Folded::NotConstant);
    assert_eq!(
        fold(&u.nodes, id(2)),
        Folded::Value(Constant::Int(IntConst { width: 32, signed: true, value: 42, overflow: false }))
    );
}
