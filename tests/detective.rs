use require_detective::syntax::{
    ArrowBody, CatchClause, Decl, Export, Expr, Func, FuncArg, Lit, LoopLeft, ObjPatPart, ObjProp,
    Part, Pat, Prop, PropKey, PropValue, Stmt, SwitchCase, Template, TemplateSpan, VarDecl,
};
use require_detective::{detective, find, find_in_program, may_contain_target, Found, Options};

// Each test hands `find` the source text of the original case together with
// a parser that returns the syntax tree of that text, written out by hand.

fn ident(name: &str) -> Expr {
    Expr::Ident(name.to_string())
}

fn string(text: &str) -> Expr {
    Expr::Lit(Lit::String(text.to_string()))
}

fn call(callee: Expr, arguments: Vec<Expr>) -> Expr {
    Expr::Call { callee: Box::new(callee), arguments }
}

fn req(word: &str, text: &str) -> Expr {
    call(ident(word), vec![string(text)])
}

fn member(object: Expr, property: &str) -> Expr {
    Expr::Member { object: Box::new(object), property: Box::new(ident(property)) }
}

fn binary(left: Expr, right: Expr) -> Expr {
    Expr::Binary { left: Box::new(left), right: Box::new(right) }
}

fn stmt(e: Expr) -> Part {
    Part::Stmt(Stmt::Expr(e))
}

fn var(name: &str, init: Expr) -> Part {
    Part::Decl(Decl::Var(vec![VarDecl { id: Pat::Ident(name.to_string()), init: Some(init) }]))
}

fn func(params: Vec<FuncArg>, body: Vec<Part>) -> Func {
    Func { params, body }
}

fn run(source: &str, options: &Options, program: Vec<Part>) -> Found {
    find(source, options, move |_: &str| Ok::<Vec<Part>, String>(program)).unwrap()
}

fn strings_program(word: &str) -> Vec<Part> {
    vec![
        var("a", req(word, "a")),
        var("b", req(word, "b")),
        var("c", req(word, "c")),
        var("abc", call(member(ident("a"), "b"), vec![ident("c")])),
        var("EventEmitter", member(req(word, "events"), "EventEmitter")),
        var(
            "x",
            call(
                req(word, "doom"),
                vec![
                    Expr::Lit(Lit::Number("5".to_string())),
                    Expr::Lit(Lit::Number("6".to_string())),
                    Expr::Lit(Lit::Number("7".to_string())),
                ],
            ),
        ),
        stmt(call(
            ident("x"),
            vec![Expr::Lit(Lit::Number("8".to_string())), Expr::Lit(Lit::Number("9".to_string()))],
        )),
        stmt(call(member(ident("c"), word), vec![string("notthis")])),
        var("y", binary(req(word, "y"), Expr::Lit(Lit::Number("100".to_string())))),
        var("EventEmitter2", call(member(req(word, "events2"), "EventEmitter"), vec![])),
    ]
}

#[test]
fn both() {
    let source = r#"
            require('a');
            require('b');
            require('c' + x);
            var moo = require('d' + y).moo;
        "#;
    let program = vec![
        stmt(req("require", "a")),
        stmt(req("require", "b")),
        stmt(call(ident("require"), vec![binary(string("c"), ident("x"))])),
        var("moo", member(call(ident("require"), vec![binary(string("d"), ident("y"))]), "moo")),
    ];
    let found = run(source, &Default::default(), program);
    assert_eq!(found.strings, vec!["a", "b"]);
    // The tree keeps no source text, so a dynamic argument other than an
    // identifier is recorded with empty text: one record per call.
    assert_eq!(found.expressions.len(), 2);
}

#[test]
fn chained() {
    let source = r#"
            require('c').hello().goodbye()
            require('b').hello()
            require('a')
        "#;
    let program = vec![
        stmt(call(member(call(member(req("require", "c"), "hello"), vec![]), "goodbye"), vec![])),
        stmt(call(member(req("require", "b"), "hello"), vec![])),
        stmt(req("require", "a")),
    ];
    let found = run(source, &Default::default(), program);
    assert_eq!(found.strings, vec!["c", "b", "a"]);
    assert!(found.expressions.is_empty());
}

/// The tree of one of the sources of `complicated`: comments and
/// parentheses leave no node; `void`, `+` and `!` wrap the call; a leading
/// `;` is an empty statement.
fn complicated_program(source: &str) -> Vec<Part> {
    let argument = if source.contains('`') {
        Expr::Lit(Lit::Template(Template { head: "a".to_string(), spans: vec![] }))
    } else {
        string("a")
    };
    let mut rest = source.trim_start();
    while rest.starts_with("/*") {
        rest = rest[rest.find("*/").unwrap() + 2..].trim_start();
    }
    let call = call(ident("require"), vec![argument]);
    if rest.starts_with(';') {
        vec![Part::Stmt(Stmt::Empty), stmt(call)]
    } else if rest.starts_with("void") || rest.starts_with('+') || rest.starts_with('!') {
        vec![stmt(Expr::Unary(Box::new(call)))]
    } else {
        vec![stmt(call)]
    }
}

#[test]
fn complicated() {
    let sources = [
        "require(\"a\")",
        "require('a')",
        "require(`a`)",
        ";require(\"a\")",
        " require(\"a\")",
        "void require(\"a\")",
        "+require(\"a\")",
        "!require(\"a\")",
        "/*comments*/require(\"a\")",
        "(require(\"a\"))",
        "require/*comments*/(\"a\")",
        ";require/*comments*/(\"a\")",
        " require/*comments*/(\"a\")",
        "void require/*comments*/(\"a\")",
        "+require/*comments*/(\"a\")",
        "!require/*comments*/(\"a\")",
        "/*comments*/require/*comments*/(\"a\")",
        "(require/*comments*/(\"a\"))",
        "require /*comments*/ (\"a\")",
        ";require /*comments*/ (\"a\")",
        " require /*comments*/ (\"a\")",
        "void require /*comments*/ (\"a\")",
        "+require /*comments*/ (\"a\")",
        "!require /*comments*/ (\"a\")",
        " /*comments*/ require /*comments*/ (\"a\")",
        "(require /*comments*/ (\"a\"))",
        "require /*comments*/ /*more comments*/ (\"a\")",
        ";require /*comments*/ /*more comments*/ (\"a\")",
        " require /*comments*/ /*more comments*/ (\"a\")",
        "void require /*comments*/ /*more comments*/ (\"a\")",
        "+require /*comments*/ /*more comments*/ (\"a\")",
        "!require /*comments*/ /*more comments*/ (\"a\")",
        " /*comments*/ /*more comments*/ require /*comments*/ /*more comments*/ (\"a\")",
        "(require /*comments*/ /*more comments*/ (\"a\"))",
        "require//comments\n(\"a\")",
        ";require//comments\n(\"a\")",
        " require//comments\n(\"a\")",
        "void require//comments\n(\"a\")",
        "+require//comments\n(\"a\")",
        "!require//comments\n(\"a\")",
        "  require//comments\n(\"a\")",
        "(require//comments\n(\"a\"))",
    ];

    for source in sources.iter() {
        let found = run(source, &Default::default(), complicated_program(source));
        assert_eq!(found.strings, vec!["a"]);
        assert!(found.expressions.is_empty());
    }
}

#[test]
fn for_await() {
    let source = r#"
            async function main () {
                for await (const _ of (async function* () {})()) {
                    require(_)
                }
            }
        "#;
    let program = vec![Part::Decl(Decl::Func(func(
        vec![],
        vec![Part::Stmt(Stmt::ForOf {
            left: LoopLeft::Variable(VarDecl { id: Pat::Ident("_".to_string()), init: None }),
            right: call(Expr::Func(func(vec![], vec![])), vec![]),
            body: Box::new(Stmt::Block(vec![stmt(call(ident("require"), vec![ident("_")]))])),
        })],
    )))];
    let found = run(source, &Default::default(), program);
    assert!(found.strings.is_empty());
    assert_eq!(found.expressions, vec!["_"]);
}

#[test]
fn optional_catch() {
    let source = r#"
            try {
                require;
            } catch {
            }
        "#;
    let program = vec![Part::Stmt(Stmt::Try {
        block: vec![stmt(ident("require"))],
        handler: Some(CatchClause { param: None, body: vec![] }),
        finalizer: None,
    })];
    let found = run(source, &Default::default(), program);
    assert!(found.strings.is_empty());
    assert!(found.expressions.is_empty());
}

#[test]
fn es_module() {
    let source = r#"
            var a = require('a');

            export default function () {
                var b = require('b');
            }
        "#;
    let program = vec![
        var("a", req("require", "a")),
        Part::Decl(Decl::Export(Box::new(Export::DefaultDecl(Decl::Func(func(
            vec![],
            vec![var("b", req("require", "b"))],
        )))))),
    ];
    let found = run(source, &Default::default(), program);
    assert_eq!(found.strings, vec!["a", "b"]);
    assert!(found.expressions.is_empty());
}

#[test]
fn generators() {
    let source = r#"
            var a = require('a');

            function *gen() {
              yield require('b');
            }
        "#;
    let program = vec![
        var("a", req("require", "a")),
        Part::Decl(Decl::Func(func(
            vec![],
            vec![stmt(Expr::Yield(Some(Box::new(req("require", "b")))))],
        ))),
    ];
    let found = run(source, &Default::default(), program);
    assert_eq!(found.strings, vec!["a", "b"]);
    assert!(found.expressions.is_empty());
}

#[test]
fn nested() {
    let source = r#"
            if (true) {
                (function () {
                    require('a');
                })();
            }
            if (false) {
                (function () {
                    var x = 10;
                    switch (x) {
                        case 1 : require('b'); break;
                        default : break;
                    }
                })()
            }

            function qqq () {
                require
                    (
                    "c"
                );
            }
        "#;
    let program = vec![
        Part::Stmt(Stmt::If {
            test: Expr::Lit(Lit::Boolean(true)),
            consequent: Box::new(Stmt::Block(vec![stmt(call(
                Expr::Func(func(vec![], vec![stmt(req("require", "a"))])),
                vec![],
            ))])),
            alternate: None,
        }),
        Part::Stmt(Stmt::If {
            test: Expr::Lit(Lit::Boolean(false)),
            consequent: Box::new(Stmt::Block(vec![stmt(call(
                Expr::Func(func(
                    vec![],
                    vec![
                        var("x", Expr::Lit(Lit::Number("10".to_string()))),
                        Part::Stmt(Stmt::Switch {
                            discriminant: ident("x"),
                            cases: vec![
                                SwitchCase {
                                    test: Some(Expr::Lit(Lit::Number("1".to_string()))),
                                    consequent: vec![
                                        stmt(req("require", "b")),
                                        Part::Stmt(Stmt::Break),
                                    ],
                                },
                                SwitchCase { test: None, consequent: vec![Part::Stmt(Stmt::Break)] },
                            ],
                        }),
                    ],
                )),
                vec![],
            ))])),
            alternate: None,
        }),
        Part::Decl(Decl::Func(func(vec![], vec![stmt(req("require", "c"))]))),
    ];
    let found = run(source, &Default::default(), program);
    assert_eq!(found.strings, vec!["a", "b", "c"]);
    assert!(found.expressions.is_empty());
}

fn prop(key: &str, value: Expr) -> Prop {
    Prop { key: PropKey::Expr(ident(key)), value: PropValue::Expr(value) }
}

#[test]
fn rest_spread() {
    let source = r#"
            var a = require('a');
            var b = require('b');
            var c = require('c');


            var obj = { foo: 'bar', bee: 'bop' }
            var spread = { ...obj }
            var { foo, ...rest } = obj
        "#;
    let program = vec![
        var("a", req("require", "a")),
        var("b", req("require", "b")),
        var("c", req("require", "c")),
        var(
            "obj",
            Expr::Obj(vec![
                ObjProp::Prop(prop("foo", string("bar"))),
                ObjProp::Prop(prop("bee", string("bop"))),
            ]),
        ),
        var("spread", Expr::Obj(vec![ObjProp::Spread(Expr::Spread(Box::new(ident("obj"))))])),
        Part::Decl(Decl::Var(vec![VarDecl {
            id: Pat::Obj(vec![
                ObjPatPart::Assign(Prop {
                    key: PropKey::Pat(Pat::Ident("foo".to_string())),
                    value: PropValue::Absent,
                }),
                ObjPatPart::Rest(Box::new(Pat::Ident("rest".to_string()))),
            ]),
            init: Some(ident("obj")),
        }])),
    ];
    let found = run(source, &Default::default(), program);
    assert_eq!(found.strings, vec!["a", "b", "c"]);
    assert!(found.expressions.is_empty());
}

#[test]
fn top_level_return() {
    let source = r#"
            var a = require('a');

            return
        "#;
    let program = vec![var("a", req("require", "a")), Part::Stmt(Stmt::Return(None))];
    let found = run(source, &Default::default(), program);
    assert_eq!(found.strings, vec!["a"]);
    assert!(found.expressions.is_empty());
}

#[test]
fn set_in_object_pat() {
    let source = r#"
            var a = load('a');
            var b = load('b');
            var c = load('c');
            var abc = a.b(c);

            function load2({set = 'hello'}) {
                return load('tt');
            }

            var loadUse = load2();
        "#;
    let set = Pat::Assign {
        left: Box::new(Pat::Ident("set".to_string())),
        right: Box::new(string("hello")),
    };
    let program = vec![
        var("a", req("load", "a")),
        var("b", req("load", "b")),
        var("c", req("load", "c")),
        var("abc", call(member(ident("a"), "b"), vec![ident("c")])),
        Part::Decl(Decl::Func(func(
            vec![FuncArg::Pat(Pat::Obj(vec![ObjPatPart::Assign(Prop {
                key: PropKey::Pat(Pat::Ident("set".to_string())),
                value: PropValue::Pat(set),
            })]))],
            vec![Part::Stmt(Stmt::Return(Some(req("load", "tt"))))],
        ))),
        var("loadUse", call(ident("load2"), vec![])),
    ];
    let found = run(source, &Options::new().word("load"), program);
    assert_eq!(found.strings, vec!["a", "b", "c", "tt"]);
    assert!(found.expressions.is_empty());
}

#[test]
fn shebang() {
    let source = r#"
            #!/usr/bin/env node
            var a = require('a');
            var b = require('b');
            var c = require('c');
        "#;
    let program = vec![
        var("a", req("require", "a")),
        var("b", req("require", "b")),
        var("c", req("require", "c")),
    ];
    let found = run(source, &Default::default(), program);
    assert_eq!(found.strings, vec!["a", "b", "c"]);
    assert!(found.expressions.is_empty());
}

#[test]
fn sparse_array() {
    let source = r#"
            var o = [,,,,]

            require('./foo')
        "#;
    let program = vec![
        var("o", Expr::Array(vec![None, None, None, None])),
        stmt(req("require", "./foo")),
    ];
    let found = run(source, &Default::default(), program);
    assert_eq!(found.strings, vec!["./foo"]);
    assert!(found.expressions.is_empty());
}

#[test]
fn strings() {
    let source = r#"
            var a = require('a');
            var b = require('b');
            var c = require('c');
            var abc = a.b(c);

            var EventEmitter = require('events').EventEmitter;

            var x = require('doom')(5,6,7);
            x(8,9);
            c.require('notthis');
            var y = require('y') * 100;

            var EventEmitter2 = require('events2').EventEmitter();
        "#;
    let found = run(source, &Default::default(), strings_program("require"));
    assert_eq!(found.strings, vec!["a", "b", "c", "events", "doom", "y", "events2"]);
    assert!(found.expressions.is_empty());
}

#[test]
fn word() {
    let source = r#"
            var a = load('a');
            var b = load('b');
            var c = load('c');
            var abc = a.b(c);

            var EventEmitter = load('events').EventEmitter;

            var x = load('doom')(5,6,7);
            x(8,9);
            c.load('notthis');
            var y = load('y') * 100;

            var EventEmitter2 = load('events2').EventEmitter();
        "#;
    let found = run(source, &Options::new().word("load"), strings_program("load"));
    assert_eq!(found.strings, vec!["a", "b", "c", "events", "doom", "y", "events2"]);
    assert!(found.expressions.is_empty());
}

#[test]
fn yield_() {
    let source = r#"
            (function * () {
                var a = require('a');
                var b = yield require('c')(a);
            })();
        "#;
    let program = vec![stmt(call(
        Expr::Func(func(
            vec![],
            vec![
                var("a", req("require", "a")),
                var("b", Expr::Yield(Some(Box::new(call(req("require", "c"), vec![ident("a")]))))),
            ],
        )),
        vec![],
    ))];
    let found = run(source, &Default::default(), program);
    assert_eq!(found.strings, vec!["a", "c"]);
    assert!(found.expressions.is_empty());
}

#[test]
fn no_target_skips_parser() {
    let found = find("var a = load('a');", &Options::new(), |_: &str| -> Result<Vec<Part>, String> {
        panic!("the parser must not be reached")
    })
    .unwrap();
    assert!(found.strings.is_empty());
    assert!(found.expressions.is_empty());
}

#[test]
fn parse_error_is_handed_back() {
    let r = find("require(", &Options::new(), |_: &str| Err::<Vec<Part>, String>("unexpected end".to_string()));
    assert_eq!(r.unwrap_err(), "unexpected end");
}

#[test]
fn two_literal_calls() {
    let program = vec![stmt(req("require", "a")), stmt(req("require", "b"))];
    let found = find_in_program(&program, &Options::default());
    assert_eq!(found.strings, vec!["a", "b"]);
    assert!(found.expressions.is_empty());
}

#[test]
fn concatenated_argument_is_dynamic() {
    let program = vec![stmt(call(ident("require"), vec![binary(string("a"), ident("x"))]))];
    let found = find_in_program(&program, &Options::default());
    assert!(found.strings.is_empty());
    assert_eq!(found.expressions, vec![""]);
}

#[test]
fn other_identifier_visits_arguments() {
    let program = vec![
        stmt(call(ident("custom"), vec![string("x")])),
        stmt(call(ident("custom"), vec![req("require", "y")])),
    ];
    let found = find_in_program(&program, &Options::default());
    assert_eq!(found.strings, vec!["y"]);
    assert!(found.expressions.is_empty());
}

#[test]
fn interpolated_template_is_dynamic() {
    let template = Template {
        head: "a".to_string(),
        spans: vec![TemplateSpan { expr: ident("x"), text: String::new() }],
    };
    let program = vec![stmt(call(ident("require"), vec![Expr::Lit(Lit::Template(template))]))];
    let found = find_in_program(&program, &Options::default());
    assert!(found.strings.is_empty());
    assert_eq!(found.expressions.len(), 1);
}

#[test]
fn plain_template_is_a_name() {
    let template = Template { head: "tpl".to_string(), spans: vec![] };
    let program = vec![stmt(call(ident("require"), vec![Expr::Lit(Lit::Template(template))]))];
    let found = find_in_program(&program, &Options::default());
    assert_eq!(found.strings, vec!["tpl"]);
}

#[test]
fn zero_arguments_record_nothing() {
    let program = vec![stmt(call(ident("require"), vec![]))];
    let found = find_in_program(&program, &Options::default());
    assert!(found.strings.is_empty());
    assert!(found.expressions.is_empty());
}

#[test]
fn matched_call_visits_all_arguments() {
    let program = vec![stmt(call(ident("require"), vec![ident("a"), req("require", "b")]))];
    let found = find_in_program(&program, &Options::default());
    assert_eq!(found.expressions, vec!["a"]);
    assert_eq!(found.strings, vec!["b"]);
}

#[test]
fn nested_call_in_first_argument() {
    let program = vec![stmt(call(ident("require"), vec![req("require", "inner")]))];
    let found = find_in_program(&program, &Options::default());
    assert_eq!(found.expressions, vec![""]);
    assert_eq!(found.strings, vec!["inner"]);
}

#[test]
fn new_expression_is_matched() {
    let program = vec![stmt(Expr::New {
        callee: Box::new(ident("require")),
        arguments: vec![string("n")],
    })];
    let found = find_in_program(&program, &Options::default());
    assert_eq!(found.strings, vec!["n"]);
}

#[test]
fn tagged_template_expressions_visited() {
    let quasi = Template {
        head: String::new(),
        spans: vec![TemplateSpan { expr: req("require", "t"), text: String::new() }],
    };
    let program = vec![stmt(Expr::TaggedTemplate { tag: Box::new(ident("tag")), quasi })];
    let found = find_in_program(&program, &Options::default());
    assert_eq!(found.strings, vec!["t"]);
}

#[test]
fn deep_nesting_in_order() {
    let class = require_detective::syntax::Class {
        super_class: Some(Box::new(req("require", "base"))),
        body: vec![Prop {
            key: PropKey::Expr(ident("m")),
            value: PropValue::Expr(Expr::Func(func(
                vec![],
                vec![Part::Stmt(Stmt::Try {
                    block: vec![stmt(req("require", "try"))],
                    handler: Some(CatchClause {
                        param: Some(Pat::Ident("e".to_string())),
                        body: vec![stmt(req("require", "catch"))],
                    }),
                    finalizer: Some(vec![stmt(req("require", "finally"))]),
                })],
            ))),
        }],
    };
    let arrow = Expr::ArrowFunc {
        params: vec![],
        body: ArrowBody::Expr(Box::new(req("require", "arrow"))),
    };
    let program = vec![
        stmt(req("require", "first")),
        Part::Decl(Decl::Class(class)),
        stmt(arrow),
        stmt(req("require", "last")),
    ];
    let found = find_in_program(&program, &Options::default());
    assert_eq!(found.strings, vec!["first", "base", "try", "catch", "finally", "arrow", "last"]);
}

#[test]
fn skipped_shapes_hold_nothing() {
    let program = vec![
        Part::Dir("use strict".to_string()),
        Part::Decl(Decl::Import),
        Part::Decl(Decl::Export(Box::new(Export::All))),
        Part::Decl(Decl::Export(Box::new(Export::Specifiers))),
        stmt(Expr::ArrowParamPlaceHolder(vec![FuncArg::Expr(req("require", "p"))])),
        stmt(call(ident("f"), vec![Expr::Lit(Lit::Template(Template {
            head: String::new(),
            spans: vec![TemplateSpan { expr: req("require", "q"), text: String::new() }],
        }))])),
    ];
    let found = find_in_program(&program, &Options::default());
    assert!(found.strings.is_empty());
    assert!(found.expressions.is_empty());
}

#[test]
fn detective_gives_names() {
    let names = detective("require('a')", &Options::default(), |_: &str| {
        Ok::<Vec<Part>, String>(vec![stmt(req("require", "a")), stmt(call(ident("require"), vec![ident("x")]))])
    })
    .unwrap();
    assert_eq!(names, vec!["a"]);
}

#[test]
fn prefilter_is_substring_search() {
    let options = Options::new();
    assert!(may_contain_target("x = require('a')", &options));
    assert!(may_contain_target("requirement", &options));
    assert!(!may_contain_target("requir e", &options));
    assert!(!may_contain_target("", &options));
    assert!(may_contain_target("anything", &Options::new().word("")));
}

#[test]
fn options_target() {
    assert_eq!(Options::new().target(), "require");
    assert_eq!(Options::default().target(), "require");
    assert_eq!(Options::new().word("load").target(), "load");
    let found = Found::new();
    assert!(found.strings.is_empty() && found.expressions.is_empty());
}
