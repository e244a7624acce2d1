use saltwater_parser::ast::{items_of, Category, Node, NodeKind};
use saltwater_parser::error::DiagCode;
use saltwater_parser::fold::Constant;
use saltwater_parser::target::Target;
use saltwater_parser::types::{TypeNode, TY_CHAR, TY_DOUBLE, TY_INT, TY_LONG, TY_NO_PARAMS};
use saltwater_parser::unit::{compile, Unit};

fn unit_for(src: &str, target: Target) -> Unit {
    match compile(src.as_bytes(), 0, target, 1000) {
        Ok(u) => u,
        Err(_) => panic!("depth limit passed"),
    }
}

fn unit(src: &str) -> Unit {
    unit_for(src, Target::lp64())
}

fn errors(u: &Unit) -> Vec<DiagCode> {
    (0..u.handler.error_count()).map(|i| u.handler.error_at(i).code).collect()
}

fn declarations(u: &Unit, i: usize) -> Vec<Node> {
    match u.nodes[u.items[i]].kind {
        NodeKind::Group { items } => items_of(&u.nodes, items).iter().map(|&d| u.nodes[d]).collect(),
        other => panic!("no declaration: {:?}", other),
    }
}

fn init_value(u: &Unit, i: usize) -> i128 {
    match declarations(u, i)[0].kind {
        NodeKind::Declare { init, .. } => match u.nodes[init].constant {
            Some(Constant::Int(c)) => c.value,
            other => panic!("no integer constant: {:?}", other),
        },
        other => panic!("no declaration: {:?}", other),
    }
}

fn last_expression(u: &Unit) -> Node {
    match u.nodes[u.items[u.items.len() - 1]].kind {
        NodeKind::Function { body, .. } => match u.nodes[body].kind {
            NodeKind::Compound { items } => {
                let all = items_of(&u.nodes, items);
                match u.nodes[all[all.len() - 1]].kind {
                    NodeKind::ExprStmt { expr } => u.nodes[expr],
                    other => panic!("no expression statement: {:?}", other),
                }
            }
            other => panic!("no block: {:?}", other),
        },
        other => panic!("no function: {:?}", other),
    }
}

/// The members of the structure or union at `id`: name, type and offset.
fn members(u: &Unit, id: usize) -> Vec<(String, TypeNode, u64)> {
    let mut out = Vec::new();
    let mut at = match u.types.get(id) {
        TypeNode::Record { complete: true, fields, .. } => fields,
        other => panic!("no complete structure: {:?}", other),
    };
    while at != TY_NO_PARAMS {
        match u.types.get(at) {
            TypeNode::Field { name, ty, offset, tail } => {
                out.push((
                    String::from_utf8(u.names.spelling(name).clone()).unwrap(),
                    u.types.get(ty),
                    offset,
                ));
                at = tail;
            }
            other => panic!("no member: {:?}", other),
        }
    }
    out
}

#[test]
fn enumeration_constants_count_up() {
    let u = unit("enum color { RED, GREEN = 5, BLUE, LAST = BLUE * 2 }; int a[BLUE]; enum color c = GREEN; int x = RED + LAST;");
    assert_eq!(errors(&u), vec![]);
    assert_eq!(u.types.get(declarations(&u, 1)[0].ty), TypeNode::Array { of: TY_INT, known: true, len: 6 });
    assert_eq!(declarations(&u, 2)[0].ty, TY_INT);
    assert_eq!(init_value(&u, 2), 5);
    assert_eq!(init_value(&u, 3), 12);
}

#[test]
fn enumeration_constants_are_values() {
    let u = unit("enum { A, B }; void f(void) { A = 1; }");
    assert_eq!(errors(&u), vec![DiagCode::InvalidLvalue]);
    let u = unit("enum e { A = 3 }; void f(int n) { switch (n) { case A: ; } sizeof(enum e); }");
    assert_eq!(errors(&u), vec![]);
    assert_eq!(last_expression(&u).constant.map(|c| match c { Constant::Int(i) => i.value, _ => -1 }), Some(4));
}

#[test]
fn enumeration_errors() {
    assert_eq!(errors(&unit("enum a { X }; enum b { X };")), vec![DiagCode::Redefinition]);
    assert_eq!(errors(&unit("int n; enum e { A = n, B };")), vec![DiagCode::NotConstant]);
    assert_eq!(errors(&unit("enum nope x;")), vec![DiagCode::UndeclaredIdentifier]);
    assert_eq!(errors(&unit("enum;")), vec![DiagCode::UnexpectedToken]);
    assert_eq!(errors(&unit("struct s { int a; }; enum s x;")), vec![DiagCode::TypeMismatch]);
    assert_eq!(errors(&unit("enum e { A }; int enum e x;")), vec![DiagCode::UnexpectedToken]);
    assert_eq!(errors(&unit("enum e { A }; static const enum e x = A;")), vec![]);
}

#[test]
fn a_nested_enumeration_constant_is_gone_with_its_block() {
    let u = unit("void f(void) { { enum { INNER = 1 }; INNER; } INNER; }");
    assert_eq!(errors(&u), vec![DiagCode::UndeclaredIdentifier]);
}

#[test]
fn structure_layout() {
    let u = unit("struct point { int x; char c; long y; char d, e; }; struct point p; unsigned long s = sizeof(struct point);");
    assert_eq!(errors(&u), vec![]);
    let id = declarations(&u, 1)[0].ty;
    match u.types.get(id) {
        TypeNode::Record { tag, union: false, complete: true, size: 24, align: 8, .. } => assert_eq!(tag, id),
        other => panic!("{:?}", other),
    }
    assert_eq!(
        members(&u, id),
        vec![
            ("x".to_string(), u.types.get(TY_INT), 0),
            ("c".to_string(), u.types.get(TY_CHAR), 4),
            ("y".to_string(), u.types.get(TY_LONG), 8),
            ("d".to_string(), u.types.get(TY_CHAR), 16),
            ("e".to_string(), u.types.get(TY_CHAR), 17),
        ]
    );
    assert_eq!(init_value(&u, 2), 24);
}

#[test]
fn layout_follows_the_alignment_of_the_target() {
    let src = "struct s { char c; double d; }; int n = sizeof(struct s);";
    assert_eq!(init_value(&unit_for(src, Target::lp64()), 1), 16);
    assert_eq!(init_value(&unit_for(src, Target::ilp32()), 1), 12);
}

#[test]
fn union_layout() {
    let u = unit("union u { char c; int i; double d; char a[11]; }; union u v; int n = sizeof v;");
    assert_eq!(errors(&u), vec![]);
    let id = declarations(&u, 1)[0].ty;
    assert!(matches!(u.types.get(id), TypeNode::Record { union: true, complete: true, size: 16, align: 8, .. }));
    assert_eq!(members(&u, id).iter().map(|m| m.2).collect::<Vec<_>>(), vec![0, 0, 0, 0]);
    assert_eq!(init_value(&u, 2), 16);
}

#[test]
fn member_access() {
    let t = |e: &str| {
        let u = unit(&format!(
            "struct point {{ int x; double y; }}; struct point p; struct point *q; const struct point k; int i; struct point make(void); void f(void) {{ {}; }}",
            e
        ));
        let n = last_expression(&u);
        (u.types.get(n.ty), n.category, errors(&u))
    };
    assert_eq!(t("p.x"), (TypeNode::Int { rank: saltwater_parser::target::IntRank::Int, signed: true }, Category::Object, vec![]));
    assert_eq!(t("q->y"), (TypeNode::Float { double: true }, Category::Object, vec![]));
    assert_eq!(t("(*q).y").0, TypeNode::Float { double: true });
    assert_eq!(t("(&p)->x").2, vec![]);
    assert_eq!(t("make().x").1, Category::Value);
    assert_eq!(t("k.x").1, Category::ConstObject);
    assert_eq!(t("p.x = 1").2, vec![]);
    assert_eq!(t("k.x = 1").2, vec![DiagCode::InvalidLvalue]);
    assert_eq!(t("make().x = 1").2, vec![DiagCode::InvalidLvalue]);
    assert_eq!(t("p.z"), (TypeNode::Error, Category::Value, vec![DiagCode::UndeclaredIdentifier]));
    assert_eq!(t("p->x"), (TypeNode::Error, Category::Value, vec![DiagCode::TypeMismatch]));
    assert_eq!(t("q.x"), (TypeNode::Error, Category::Value, vec![DiagCode::TypeMismatch]));
    assert_eq!(t("i.x"), (TypeNode::Error, Category::Value, vec![DiagCode::TypeMismatch]));
    assert_eq!(t("p.").2.len() >= 1, true);
    assert_eq!(t("nope.x.y"), (TypeNode::Error, Category::Value, vec![DiagCode::UndeclaredIdentifier]));
    assert_eq!(t("p = *q").2, vec![]);
    assert_eq!(t("p = 1").2, vec![DiagCode::TypeMismatch]);
    assert_eq!(t("p + 1").2, vec![DiagCode::TypeMismatch]);
    assert_eq!(t("q + 1").2, vec![]);
    assert_eq!(t("(struct point *)0").2, vec![]);
}

#[test]
fn incomplete_types_are_refused_where_a_size_is_needed() {
    assert_eq!(errors(&unit("struct s; struct s v;")), vec![DiagCode::IncompleteType]);
    assert_eq!(errors(&unit("struct s; struct s *p; int n = sizeof(struct s);")), vec![DiagCode::IncompleteType]);
    assert_eq!(errors(&unit("struct s *p; void f(void) { p->a; }")), vec![DiagCode::IncompleteType]);
    assert_eq!(errors(&unit("struct s *p; void f(void) { p + 1; }")), vec![DiagCode::TypeMismatch]);
    assert_eq!(errors(&unit("struct s *p; struct s a[2];")), vec![DiagCode::IncompleteType]);
    assert_eq!(errors(&unit("struct s { struct s inner; };")), vec![DiagCode::IncompleteType]);
    assert_eq!(errors(&unit("struct s; struct s *p; struct s *q; int ok = 1;")), vec![]);
}

#[test]
fn a_structure_becomes_complete_and_stays_so() {
    let u = unit("struct s; struct s *p; struct s { int a; }; struct s; void f(void) { p->a; }");
    assert_eq!(errors(&u), vec![]);
    let pointer = declarations(&u, 1)[0].ty;
    let to = match u.types.get(pointer) {
        TypeNode::Pointer { to } => to,
        other => panic!("{:?}", other),
    };
    assert!(matches!(u.types.get(to), TypeNode::Record { complete: true, size: 4, .. }));
    assert_eq!(last_expression(&u).ty, TY_INT);
}

#[test]
fn a_structure_may_point_to_itself() {
    let u = unit("struct node { int v; struct node *next; }; struct node n; void f(void) { n.next->next->v; }");
    assert_eq!(errors(&u), vec![]);
    assert_eq!(last_expression(&u).ty, TY_INT);
    let id = declarations(&u, 1)[0].ty;
    assert_eq!(members(&u, id)[1].1, TypeNode::Pointer { to: id });
}

#[test]
fn tags_are_checked() {
    assert_eq!(errors(&unit("struct s { int a; }; struct s { int b; };")), vec![DiagCode::Redefinition]);
    assert_eq!(errors(&unit("struct s; union s x;")), vec![DiagCode::TypeMismatch]);
    assert_eq!(errors(&unit("struct s { int a; int; };")), vec![DiagCode::UnexpectedToken]);
    assert_eq!(errors(&unit("struct { int a; } x; struct { char c; } y; int s; struct s { int s; } z;")), vec![]);
    assert_eq!(errors(&unit("struct;")), vec![DiagCode::UnexpectedToken]);
}

#[test]
fn tags_have_scopes() {
    let u = unit("struct s { int a; }; void f(void) { struct s { double c; }; struct s v; v.c; }");
    assert_eq!(errors(&u), vec![]);
    assert_eq!(last_expression(&u).ty, TY_DOUBLE);
    let u = unit("struct s { int a; }; void f(void) { { struct s { double c; }; } struct s v; v.a; }");
    assert_eq!(errors(&u), vec![]);
    assert_eq!(last_expression(&u).ty, TY_INT);
}

#[test]
fn structures_are_initialised_member_by_member() {
    assert_eq!(errors(&unit("struct p { int x; char *s; double d; }; struct p a = {1, \"s\", 2.5}; struct p b = {1};")), vec![]);
    assert_eq!(errors(&unit("struct p { int x; char *s; }; struct p a = {1, 2};")), vec![DiagCode::TypeMismatch]);
    assert_eq!(errors(&unit("struct p { int x; }; struct p a = {1, 2};")), vec![DiagCode::TypeMismatch]);
    assert_eq!(errors(&unit("struct p { int x; int a[2]; }; struct p a = {1, {2, 3}}; struct p b = a;")), vec![]);
    assert_eq!(errors(&unit("struct p { int x; }; struct q { struct p in; int y; }; struct q v = {{1}, 2};")), vec![]);
}

#[test]
fn structures_and_functions() {
    let u = unit("struct p { int x; }; struct p make(int x) { struct p r; r.x = x; return r; } int use(struct p v, struct p *w) { return v.x + w->x; } int g(void) { struct p a = make(1); return use(a, &a) + use(make(2), 0); }");
    assert_eq!(errors(&u), vec![]);
    let u = unit("struct p { int x; }; int use(struct p v); int g(void) { return use(1); }");
    assert_eq!(errors(&u), vec![DiagCode::TypeMismatch]);
}
