use plonky::report::{assemble_analyse_result, AnalyseResult, ConstraintStat, R1csStats};

#[test]
fn analyse_report_json_exact() {
    let stats = vec![ConstraintStat { name: "0".to_string(), num_gates: 1 }];
    let r1cs = R1csStats { num_inputs: 2, num_aux: 2, num_variables: 4, num_constraints: 1 };
    let report = assemble_analyse_result(r1cs, 1, 1, stats);
    assert_eq!(report.num_nontrivial_constraints, 1);
    assert_eq!(
        report.to_json(),
        r#"{"num_inputs":2,"num_aux":2,"num_variables":4,"num_constraints":1,"num_nontrivial_constraints":1,"num_gates":1,"num_hints":1,"constraint_stats":[{"name":"0","num_gates":1}]}"#
    );
}

#[test]
fn analyse_report_json_omits_empty_stats() {
    let r1cs = R1csStats { num_inputs: 0, num_aux: 0, num_variables: 0, num_constraints: 0 };
    let report = assemble_analyse_result(r1cs, 0, 0, Vec::new());
    assert_eq!(
        report.to_json(),
        r#"{"num_inputs":0,"num_aux":0,"num_variables":0,"num_constraints":0,"num_nontrivial_constraints":0,"num_gates":0,"num_hints":0}"#
    );
}

#[test]
fn analyse_report_json_large_counts() {
    let n = usize::MAX;
    let report = AnalyseResult {
        num_inputs: n,
        num_aux: 12,
        num_variables: 305419896,
        num_constraints: 7,
        num_nontrivial_constraints: 0,
        num_gates: 10,
        num_hints: 100,
        constraint_stats: vec![
            ConstraintStat { name: "first".to_string(), num_gates: 0 },
            ConstraintStat { name: "second".to_string(), num_gates: 42 },
        ],
    };
    let expected = format!(
        "{{\"num_inputs\":{n},\"num_aux\":12,\"num_variables\":305419896,\"num_constraints\":7,\"num_nontrivial_constraints\":0,\"num_gates\":10,\"num_hints\":100,\"constraint_stats\":[{{\"name\":\"first\",\"num_gates\":0}},{{\"name\":\"second\",\"num_gates\":42}}]}}"
    );
    assert_eq!(report.to_json(), expected);
}
