use bekoedit::transport_guard::eval_immediately_followed_by_a_loop;

#[test]
fn eval_immediately_followed_by_a_loop_detects_the_anti_pattern_at_any_indentation() {
    assert!(!eval_immediately_followed_by_a_loop("    let mut eval = document::eval(driver_js);\n    eval.send(x);"));
    assert!(eval_immediately_followed_by_a_loop("            let mut eval = document::eval(driver_js);\n            loop {"));
    assert!(eval_immediately_followed_by_a_loop("let mut eval = document::eval(driver_js);\nloop"));
    assert!(eval_immediately_followed_by_a_loop("    let mut eval = document::eval(driver_js);\n\n    loop {"));
}

#[test]
fn a_loop_further_down_or_before_the_eval_is_not_the_anti_pattern() {
    assert!(!eval_immediately_followed_by_a_loop("loop {\nlet mut eval = document::eval(js);\n"));
    assert!(!eval_immediately_followed_by_a_loop("let mut eval = document::eval(js);\nx();\nloop {"));
    assert!(!eval_immediately_followed_by_a_loop("let mut eval = document::eval(js);\n   \n"));
    assert!(eval_immediately_followed_by_a_loop("let mut eval = document::eval(js);\r\n\t\r\n  loop{ }\r\n"));
    assert!(!eval_immediately_followed_by_a_loop("let mut eval = document::eval(js);\nlooping();"));
    assert!(!eval_immediately_followed_by_a_loop(""));
}
