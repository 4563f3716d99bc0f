use rlib::internal::{ParseStatus, SEXPTYPE};
use rlib::interpreter::{new, startup_args, startup_symbols, Interpreter};

fn handle(call: usize, function: usize, nativesym: usize, global: usize) -> Interpreter {
    new(vec![call, function, nativesym], global).unwrap()
}
use rlib::sexp::{double, integer, typed_len, AsR, SEXP};

#[test]
fn sexptype_codes_match_the_runtime() {
    let all = [
        (SEXPTYPE::NILSXP, 0),
        (SEXPTYPE::SYMSXP, 1),
        (SEXPTYPE::LISTSXP, 2),
        (SEXPTYPE::CLOSXP, 3),
        (SEXPTYPE::ENVSXP, 4),
        (SEXPTYPE::PROMSXP, 5),
        (SEXPTYPE::LANGSXP, 6),
        (SEXPTYPE::SPECIALSXP, 7),
        (SEXPTYPE::BUILINSXP, 8),
        (SEXPTYPE::CHARSXP, 9),
        (SEXPTYPE::LGLSXP, 10),
        (SEXPTYPE::INTSXP, 13),
        (SEXPTYPE::REALSXP, 14),
        (SEXPTYPE::CPLSXP, 15),
        (SEXPTYPE::STRSXP, 16),
        (SEXPTYPE::DOTSXP, 17),
        (SEXPTYPE::ANYSXP, 18),
        (SEXPTYPE::VECSXP, 19),
        (SEXPTYPE::EPRSXP, 20),
        (SEXPTYPE::BCODESXP, 21),
        (SEXPTYPE::EXTPRSXP, 22),
        (SEXPTYPE::WEAKREFSXP, 23),
        (SEXPTYPE::RAWSXP, 24),
        (SEXPTYPE::S4SXP, 25),
        (SEXPTYPE::NEWSXP, 30),
        (SEXPTYPE::FREESXP, 31),
        (SEXPTYPE::FUNSXP, 99),
    ];
    for (t, c) in all.iter() {
        assert_eq!(t.code(), *c);
        assert_eq!(SEXPTYPE::from_code(*c), Some(*t));
    }
}

#[test]
fn sexptype_gaps_name_no_type() {
    for c in [-1, 11, 12, 26, 29, 32, 98, 100] {
        assert_eq!(SEXPTYPE::from_code(c), None);
    }
}

#[test]
fn parse_status_codes_roundtrip() {
    let all = [
        ParseStatus::PARSE_NULL,
        ParseStatus::PARSE_OK,
        ParseStatus::PARSE_INCOMPLETE,
        ParseStatus::PARSE_ERROR,
        ParseStatus::PARSE_EOF,
    ];
    for (i, s) in all.iter().enumerate() {
        assert_eq!(s.code(), i as i32);
        assert_eq!(ParseStatus::from_code(i as i32), Some(*s));
    }
    assert_eq!(ParseStatus::from_code(5), None);
    assert_eq!(ParseStatus::from_code(-1), None);
}

#[test]
fn iterator_walks_each_index_once_then_stops() {
    let v = SEXP::from_raw(0x1000);
    let mut it = v.into_iter(3);
    assert_eq!(it.sexp(), 0x1000);
    assert_eq!(it.next_index(), Some(0));
    assert_eq!(it.next_index(), Some(1));
    assert_eq!(it.next_index(), Some(2));
    assert_eq!(it.next_index(), None);
    assert_eq!(it.next_index(), None);
    assert_eq!(it.sexp(), 0x1000);
}

#[test]
fn iterator_over_empty_or_negative_length_is_empty() {
    let mut it = SEXP::from_raw(8).into_iter(0);
    assert_eq!(it.next_index(), None);
    let mut it = SEXP::from_raw(8).into_iter(-4);
    assert_eq!(it.next_index(), None);
}

#[test]
fn iterator_counts_length_elements() {
    let mut it = SEXP::from_raw(16).into_iter(100);
    let mut n = 0;
    while let Some(i) = it.next_index() {
        assert_eq!(i, n);
        n += 1;
    }
    assert_eq!(n, 100);
}

#[test]
fn as_r_gives_back_the_address() {
    let s = SEXP::from_raw(0xdead);
    assert_eq!(s.asR(), 0xdead);
}

#[test]
fn double_only_for_real_vectors() {
    assert_eq!(double(14, 5), Some(5));
    assert_eq!(double(14, 0), Some(0));
    assert_eq!(double(13, 5), None);
    assert_eq!(double(0, 5), None);
}

#[test]
fn integer_only_for_integer_vectors() {
    assert_eq!(integer(13, 7), Some(7));
    assert_eq!(integer(14, 7), None);
    assert_eq!(integer(10, 7), None);
}

#[test]
fn typed_len_compares_type_numbers() {
    assert_eq!(typed_len(SEXPTYPE::STRSXP, 16, 2), Some(2));
    assert_eq!(typed_len(SEXPTYPE::STRSXP, 19, 2), None);
}

#[test]
fn interpreter_keeps_its_addresses() {
    let r = handle(1, 2, 3, 4);
    assert_eq!(r.sexp_call, 1);
    assert_eq!(r.sexp_function, 2);
    assert_eq!(r.sexp_nativesym, 3);
    assert_eq!(r.sexp_call(), 1);
    assert_eq!(r.sexp_function(), 2);
    assert_eq!(r.sexp_nativesym(), 3);
    assert_eq!(r.global_env(), 4);
    assert_eq!(r.global_env(), 4);
}

#[test]
fn new_needs_one_address_per_symbol() {
    assert!(new(vec![1, 2], 4).is_none());
    assert!(new(vec![1, 2, 3, 5], 4).is_none());
    assert!(new(vec![], 4).is_none());
    assert!(new(vec![9, 8, 7], 4).is_some());
}

#[test]
fn startup_symbols_are_the_kept_symbols() {
    assert_eq!(startup_symbols(), vec![".Call", "function", "native symbol"]);
}

#[test]
fn parse_result_ok_only_on_parse_ok() {
    let r = handle(1, 2, 3, 4);
    match r.parse_result(SEXP::from_raw(42), ParseStatus::PARSE_OK) {
        Ok(s) => assert_eq!(s.asR(), 42),
        Err(_) => panic!("parse should succeed"),
    }
    for st in [
        ParseStatus::PARSE_NULL,
        ParseStatus::PARSE_INCOMPLETE,
        ParseStatus::PARSE_ERROR,
        ParseStatus::PARSE_EOF,
    ] {
        match r.parse_result(SEXP::from_raw(42), st) {
            Ok(_) => panic!("parse should fail"),
            Err(e) => assert_eq!(e, st),
        }
    }
}

#[test]
fn try_eval_result_keeps_value_only_without_error() {
    let r = handle(1, 2, 3, 4);
    assert_eq!(r.try_eval_result(77, 0), Some(77));
    assert_eq!(r.try_eval_result(77, 1), None);
    assert_eq!(r.try_eval_result(77, -1), None);
}

#[test]
fn startup_args_are_the_embedded_command_line() {
    assert_eq!(startup_args(), vec!["example", "--slave", "--vanilla"]);
}
