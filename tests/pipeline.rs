use finnlang::{run_finn_code, FinnLangError};

fn output(src: &str) -> String {
    match run_finn_code(src) {
        Ok(out) => out,
        Err(e) => panic!("unexpected failure: {}", e.describe()),
    }
}

fn runtime_message(src: &str) -> String {
    match run_finn_code(src) {
        Err(FinnLangError::RuntimeError(msg)) => msg,
        other => panic!("expected a runtime failure, got {:?}", other),
    }
}

#[test]
fn let_print_and_assign() {
    assert_eq!(output("let x = 10; print(x); x = x + 1; print(x);"), "10\n11");
}

#[test]
fn sequential_prints_in_order() {
    assert_eq!(output("let a = 2; let b = a * 3; print(a); print(b); print(b - a);"), "2\n6\n4");
}

#[test]
fn string_concatenation_either_side() {
    assert_eq!(output("let s = \"a\" + 1; print(s);"), "a1");
    assert_eq!(output("let s2 = 1 + \"a\"; print(s2);"), "1a");
    assert_eq!(output("print(\"x\" + \"y\");"), "xy");
    assert_eq!(output("print(\"v\" + true);"), "vtrue");
}

#[test]
fn division_by_zero_is_runtime_failure() {
    assert_eq!(runtime_message("print(5 / 0);"), "Division by zero");
    assert_eq!(runtime_message("print(5 % 0);"), "Modulo by zero");
}

#[test]
fn return_inside_loop_ends_the_call() {
    let src = "funct f(): int { while (true) { return 1; } return 2; } print(f());";
    assert_eq!(output(src), "1");
}

#[test]
fn out_of_range_read_is_runtime_failure() {
    assert_eq!(runtime_message("let arr = [1, 2, 3]; print(arr[5]);"), "Index out of bounds");
    assert_eq!(runtime_message("let arr = [1, 2, 3]; print(arr[0 - 1]);"), "Index out of bounds");
}

#[test]
fn array_read_and_render() {
    assert_eq!(output("let arr = [1, 2, 3]; print(arr[1]); print(arr);"), "2\n[1, 2, 3]");
    assert_eq!(output("print([[1], [], [true, \"s\"]]);"), "[[1], [], [true, s]]");
}

#[test]
fn short_circuit_skips_right_side() {
    assert_eq!(output("print(false and (1 / 0 == 0));"), "false");
    assert_eq!(output("print(true or (1 / 0 == 0));"), "true");
    assert_eq!(runtime_message("print(true and (1 / 0 == 0));"), "Division by zero");
}

#[test]
fn logic_requires_booleans() {
    assert_eq!(runtime_message("print(1 and true);"), "Unsupported operand types for and");
    assert_eq!(runtime_message("print(false or 2);"), "Unsupported operand types for or");
}

#[test]
fn running_twice_gives_same_output() {
    let src = "let x = 3; funct g(n: int): int { print(n); return n * 2; } print(g(x));";
    let first = output(src);
    let second = output(src);
    assert_eq!(first, "3\n6");
    assert_eq!(first, second);
}

#[test]
fn doubles_render_in_decimal() {
    assert_eq!(output("print(1.5 + 2.25);"), "3.75");
    assert_eq!(output("print(2.0);"), "2");
    assert_eq!(output("print(0.1 + 0.2);"), "0.3");
    assert_eq!(output("print(1.0 / 4.0);"), "0.25");
    assert_eq!(output("print(0.0 - 1.5);"), "-1.5");
    assert_eq!(output("print(3.14159265);"), "3.141592");
}

#[test]
fn integer_division_truncates() {
    assert_eq!(output("print(7 / 2); print(0 - 7 / 2); print((0 - 7) / 2); print((0 - 7) % 3);"), "3\n-3\n-3\n-1");
}

#[test]
fn mixed_arithmetic_is_rejected() {
    assert_eq!(runtime_message("print(1 + 1.5);"), "Unsupported operand types for +");
    assert_eq!(runtime_message("print(true - 1);"), "Unsupported operand types for -");
    assert_eq!(runtime_message("print(1.5 % 1.0);"), "Unsupported operand types for %");
    assert_eq!(runtime_message("print(1 < 1.5);"), "Unsupported operand types for <");
}

#[test]
fn integer_overflow_is_runtime_failure() {
    assert_eq!(runtime_message("print(9223372036854775807 + 1);"), "Integer overflow");
}

#[test]
fn literal_too_large_is_parse_failure() {
    match run_finn_code("print(99999999999999999999);") {
        Err(FinnLangError::ParseError(_)) => {}
        other => panic!("expected a parse failure, got {:?}", other),
    }
}

#[test]
fn unclosed_array_is_parse_failure() {
    match run_finn_code("let a = [1, 2; print(a);") {
        Err(FinnLangError::ParseError(msg)) => assert_eq!(msg, "Expected closing bracket for array literal"),
        other => panic!("expected a parse failure, got {:?}", other),
    }
}

#[test]
fn undefined_names_fail() {
    assert_eq!(runtime_message("print(y);"), "Undefined variable: y");
    assert_eq!(runtime_message("y = 1;"), "Cannot assign to undeclared variable: y");
    assert_eq!(runtime_message("print(h(1));"), "Undefined function: h");
    assert_eq!(runtime_message("funct k(a: int) { return a; } print(k());"), "Function k expects 1 arguments, got 0");
}

#[test]
fn equality_is_structural() {
    assert_eq!(output("print([1, 2] == [1, 2]); print([1, 2] != [2, 1]); print(1 == 1.0); print(\"a\" == \"a\");"), "true\ntrue\nfalse\ntrue");
}

#[test]
fn if_elif_else_chain() {
    let src = "let x = 5; if (x < 3) { print(\"small\"); } elif (x < 10) { print(\"medium\"); } else { print(\"large\"); }";
    assert_eq!(output(src), "medium");
    let src2 = "let x = 50; if (x < 3) { print(1); } elif (x < 10) { print(2); } else { print(3); }";
    assert_eq!(output(src2), "3");
}

#[test]
fn for_loop_counts() {
    assert_eq!(output("for (let i = 0; i < 3; i = i + 1) { print(i); }"), "0\n1\n2");
}

#[test]
fn function_output_comes_at_the_call() {
    let src = "funct hello() { print(\"hi\"); } print(1); hello(); print(2);";
    assert_eq!(output(src), "1\nhi\n2");
}

#[test]
fn functions_do_not_see_caller_variables() {
    assert_eq!(runtime_message("let z = 1; funct f(): int { return z; } print(f());"), "Undefined variable: z");
}

#[test]
fn function_without_return_gives_zero() {
    assert_eq!(output("funct f() { let a = 1; } print(f()); funct g() { return; } print(g());"), "0\n0");
}

#[test]
fn recursion_works() {
    let src = "funct fact(n: int): int { if (n <= 1) { return 1; } return n * fact(n - 1); } print(fact(10));";
    assert_eq!(output(src), "3628800");
}

#[test]
fn top_level_return_stops_the_program() {
    assert_eq!(output("print(1); return; print(2);"), "1");
}

#[test]
fn bad_statements_are_skipped() {
    assert_eq!(output("print(1); @ let = ; print(2);"), "1\n2");
}

#[test]
fn endless_loop_hits_step_limit() {
    assert_eq!(runtime_message("while (true) { }"), "Step limit exceeded");
}

#[test]
fn negation_and_not() {
    assert_eq!(output("print(-5); print(not true); print(!false); print(-2.5);"), "-5\nfalse\ntrue\n-2.5");
}

#[test]
fn empty_program_prints_nothing() {
    assert_eq!(output(""), "");
    assert_eq!(output("   \n\t "), "");
}

#[test]
fn describe_names_the_kind() {
    let e = run_finn_code("print(1 / 0);").unwrap_err();
    assert_eq!(e.describe(), "Runtime Error: Division by zero");
}
