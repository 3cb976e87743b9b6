use mrsoc_rt::channel::{halt, handle_panic, TestBenchIo};
use mrsoc_rt::fmt::{fmt_str, fmt_u64, render_template};

/// The words that `s` puts on the to-host register: one zero-extended 32-bit
/// word per UTF-8 byte.
fn words(s: &str) -> Vec<u32> {
    s.bytes().map(|b| b as u32).collect()
}

#[test]
fn it_works() {
    assert_eq!(2 + 2, 4);
}

#[test]
fn write_str_emits_utf8_bytes_in_order() {
    let mut io = TestBenchIo::new();
    io.write_str("Hello, world!");
    assert_eq!(io.tohost_words(), &words("Hello, world!"));
    assert_eq!(io.hosthalt_words().len(), 0);

    let mut io = TestBenchIo::new();
    io.write_str("héllo ∀x");
    assert_eq!(io.tohost_words(), &words("héllo ∀x"));

    let mut io = TestBenchIo::new();
    io.write_str("");
    assert_eq!(io.tohost_words().len(), 0);
}

#[test]
fn write_str_concatenates_across_calls() {
    let mut io = TestBenchIo::new();
    io.write_str("ab");
    io.write_str("c");
    assert_eq!(io.tohost_words(), &words("abc"));
}

#[test]
fn println_hello_appends_newline() {
    let mut io = TestBenchIo::new();
    io.println_fmt("Hello", &Vec::new());
    assert_eq!(io.tohost_words(), &words("Hello\n"));
    assert!(!io.is_halted());
}

#[test]
fn print_fmt_splices_numeric_arguments() {
    let mut io = TestBenchIo::new();
    let args = vec![fmt_u64(5), fmt_u64(10)];
    io.print_fmt("Insts: {}, Cycles: {}", &args);
    assert_eq!(io.tohost_words(), &words("Insts: 5, Cycles: 10"));
}

#[test]
fn render_template_handles_placeholders() {
    let args = vec![fmt_str("x"), fmt_str("y")];
    assert_eq!(render_template(b"{} and {}", &args), b"x and y".to_vec());
    // A placeholder with no argument left is copied literally.
    assert_eq!(render_template(b"a {} b {}", &vec![fmt_str("1")]), b"a 1 b {}".to_vec());
    // Leftover arguments are ignored.
    assert_eq!(render_template(b"none", &args), b"none".to_vec());
    // A lone brace is not a placeholder.
    assert_eq!(render_template(b"{ } {", &args), b"{ } {".to_vec());
    assert_eq!(render_template(b"", &args), Vec::<u8>::new());
}

#[test]
fn fmt_u64_renders_decimal() {
    assert_eq!(fmt_u64(0), b"0".to_vec());
    assert_eq!(fmt_u64(5), b"5".to_vec());
    assert_eq!(fmt_u64(10), b"10".to_vec());
    assert_eq!(fmt_u64(907), b"907".to_vec());
    assert_eq!(fmt_u64(u64::MAX), b"18446744073709551615".to_vec());
}

#[test]
fn fmt_str_renders_utf8() {
    assert_eq!(fmt_str("héllo"), "héllo".as_bytes().to_vec());
}

#[test]
fn panic_with_location_and_payload() {
    let mut io = TestBenchIo::new();
    handle_panic(&mut io, Some(("src/main.rs", 42)), Some("boom"));
    assert_eq!(
        io.tohost_words(),
        &words("Panic encountered at src/main.rs:42!\nInfo: 'boom'\n")
    );
    assert_eq!(io.hosthalt_words(), &vec![1u32]);
    assert!(io.is_halted());
    // Nothing is observable after the halt signal.
    let to_host_before = io.tohost_words().clone();
    io.write_str("late");
    assert_eq!(io.tohost_words(), &to_host_before);
    assert_eq!(io.hosthalt_words(), &vec![1u32]);
}

#[test]
fn panic_without_location() {
    let mut io = TestBenchIo::new();
    handle_panic(&mut io, None, Some("boom"));
    assert_eq!(io.tohost_words(), &words("Panic encountered!\nInfo: 'boom'\n"));
    assert_eq!(io.hosthalt_words(), &vec![1u32]);
}

#[test]
fn panic_without_string_payload_omits_info_line() {
    let mut io = TestBenchIo::new();
    handle_panic(&mut io, Some(("lib.rs", 7)), None);
    assert_eq!(io.tohost_words(), &words("Panic encountered at lib.rs:7!\n"));
    assert_eq!(io.hosthalt_words(), &vec![1u32]);
}

#[test]
fn halt_is_terminal() {
    let mut io = TestBenchIo::new();
    io.write_str("done");
    halt(&mut io);
    assert!(io.is_halted());
    assert_eq!(io.hosthalt_words(), &vec![1u32]);

    io.write_str("after");
    io.print_fmt("{}", &vec![fmt_u64(1)]);
    io.println_fmt("x", &Vec::new());
    halt(&mut io);
    handle_panic(&mut io, Some(("a.rs", 1)), Some("late"));
    assert_eq!(io.tohost_words(), &words("done"));
    assert_eq!(io.hosthalt_words(), &vec![1u32]);
}

#[test]
fn new_machine_is_running_and_silent() {
    let io = TestBenchIo::new();
    assert!(!io.is_halted());
    assert_eq!(io.tohost_words().len(), 0);
    assert_eq!(io.hosthalt_words().len(), 0);
}
