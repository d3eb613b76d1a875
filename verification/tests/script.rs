use bigbytesdb::script::{
    immediate_script, lines_of, procedure_script, result_lines, DeclareItem, DeclareVar, ScriptResult,
    ScriptStatement,
};

type Stmt = ScriptStatement<i32, &'static str, &'static str>;

#[test]
fn immediate_script_puts_declarations_before_body() {
    let declares: Vec<DeclareItem<i32, &'static str>> = vec![
        DeclareItem::Var(DeclareVar { name: "x".to_string(), default: 1 }),
        DeclareItem::ResultSet("rs"),
    ];
    let src: Vec<Stmt> = immediate_script(declares, vec!["RETURN x"]);
    assert_eq!(
        src,
        vec![
            ScriptStatement::LetVar { declare: DeclareVar { name: "x".to_string(), default: 1 } },
            ScriptStatement::LetStatement { declare: "rs" },
            ScriptStatement::Body("RETURN x"),
        ]
    );
}

#[test]
fn procedure_arguments_come_first_and_pair_up() {
    let src: Vec<Stmt> = procedure_script(
        vec![10, 20, 30],
        vec!["a".to_string(), "b".to_string()],
        vec![DeclareItem::Var(DeclareVar { name: "c".to_string(), default: 3 })],
        vec!["RETURN a + b"],
    );
    assert_eq!(
        src,
        vec![
            ScriptStatement::LetVar { declare: DeclareVar { name: "a".to_string(), default: 10 } },
            ScriptStatement::LetVar { declare: DeclareVar { name: "b".to_string(), default: 20 } },
            ScriptStatement::LetVar { declare: DeclareVar { name: "c".to_string(), default: 3 } },
            ScriptStatement::Body("RETURN a + b"),
        ]
    );
}

#[test]
fn lines_follow_str_lines() {
    for text in ["", "a", "a\n", "a\nb", "a\r\nb\r\n", "\n", "a\n\nb", "x\ry", "\r\n\r\n", "last\r"] {
        let expected: Vec<String> = text.lines().map(|l| l.to_string()).collect();
        assert_eq!(lines_of(text), expected, "text {:?}", text);
    }
}

#[test]
fn script_results_become_a_column() {
    assert_eq!(result_lines(&ScriptResult::Var("42".to_string())), vec!["42"]);
    assert_eq!(
        result_lines(&ScriptResult::Table("+---+\n| a |\n+---+\n".to_string())),
        vec!["+---+", "| a |", "+---+"]
    );
    assert!(result_lines(&ScriptResult::Nothing).is_empty());
}
