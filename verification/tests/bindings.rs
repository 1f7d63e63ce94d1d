use brutil_bindings::py_greet_message;
use brutil_bindings::sum_as_string;
use brutil_bindings::wasm_greet_message;

#[test]
fn sum_two_and_three() {
    assert_eq!(sum_as_string(2, 3), "5");
}

#[test]
fn sum_zero_and_zero() {
    assert_eq!(sum_as_string(0, 0), "0");
}

#[test]
fn sum_two_digits() {
    assert_eq!(sum_as_string(10, 2), "12");
}

#[test]
fn sum_every_digit() {
    assert_eq!(sum_as_string(1023456789, 0), "1023456789");
}

#[test]
fn sum_round_hundreds() {
    assert_eq!(sum_as_string(99, 1), "100");
}

#[test]
fn sum_largest_representable() {
    assert_eq!(sum_as_string(usize::MAX, 0), format!("{}", usize::MAX));
}

#[test]
fn sum_is_stateless() {
    let first = sum_as_string(41, 1);
    let second = sum_as_string(41, 1);
    assert_eq!(first, second);
    assert_eq!(first, "42");
}

#[test]
fn py_message_for_ada() {
    assert_eq!(py_greet_message("Ada"), "via Python, Ada");
}

#[test]
fn wasm_message_for_ada() {
    assert_eq!(wasm_greet_message("Ada"), "via WebAssembly, Ada");
}

#[test]
fn py_message_for_empty_name() {
    assert_eq!(py_greet_message(""), "via Python, ");
}

#[test]
fn wasm_message_for_empty_name() {
    assert_eq!(wasm_greet_message(""), "via WebAssembly, ");
}

#[test]
fn py_message_keeps_unicode_name() {
    assert_eq!(py_greet_message("Åda π"), "via Python, Åda π");
}

#[test]
fn greet_messages_are_stateless() {
    let py_first = py_greet_message("Grace");
    let py_second = py_greet_message("Grace");
    assert_eq!(py_first, py_second);
    let wasm_first = wasm_greet_message("Grace");
    let wasm_second = wasm_greet_message("Grace");
    assert_eq!(wasm_first, wasm_second);
}
