//! Unit tests for the small verified utilities.

use process_supervisor::arith::{complex_math, double_overflow, double_safe, triple};
use process_supervisor::builder;
use process_supervisor::builder_errors::{self, ThingError};
use process_supervisor::byte_units::{ByteUnit, Bytes, Kilobytes, MegaBytes};
use process_supervisor::cache::{HelloJson, MessageCache};
use process_supervisor::documented::{
    example_fast_access, example_function, example_function_wrapper, panic_example,
};
use process_supervisor::lines::count_lines;
use process_supervisor::primes::{count_primes, is_prime};
use process_supervisor::rows::get_rows;
use process_supervisor::text::{is_email_valid, upper_line};
use fake::faker::internet::en::SafeEmail;
use fake::Fake;

// Test for a positive number that doesn't cause an overflow
#[test]
fn test_double_overflow_positive() {
    assert!(double_overflow(5) == 10);
}

#[test]
fn test_double_overflow_positive_overflow() {
    let result = double_overflow(i32::MAX);
    assert_eq!(result, -2);
}

#[test]
fn test_double_overflow_inequality_positive() {
    let result = double_overflow(7);
    assert_ne!(result, 8); // 7 * 2 is 14, not 8
}

#[test]
#[should_panic]
fn test_panic() {
    panic!("Oops");
}

#[test]
fn test_random_email() {
    let email: String = SafeEmail().fake();
    println!("{email}");
    assert!(is_email_valid(&email));
}

#[test]
fn test_double_safe() {
    assert_eq!(double_safe(5), Ok(10));
    assert_eq!(double_safe(-21), Ok(-42));
    assert_eq!(double_safe(i32::MAX), Err("overflow".to_string()));
    assert_eq!(double_safe(i32::MIN), Err("overflow".to_string()));
}

#[test]
fn test_triple_and_complex_math() {
    assert_eq!(triple(2), 6);
    assert_eq!(triple(-4), -12);
    assert_eq!(complex_math(), 12);
}

#[test]
fn test_documented_examples() {
    assert_eq!(example_function(2), 4);
    assert_eq!(example_function_wrapper(21), 42);
    assert_eq!(panic_example(Some(3)), 6);
    assert_eq!(example_fast_access(), 4);
}

#[test]
fn test_email_shapes() {
    assert!(is_email_valid("someone@example.com"));
    assert!(!is_email_valid(""));
    assert!(!is_email_valid("no-at-sign"));
    assert!(is_email_valid("@"));
}

#[test]
fn test_upper_line() {
    assert_eq!(upper_line("hi"), "HI\n");
    assert_eq!(upper_line(""), "\n");
    assert_eq!(upper_line("Mixed Case 7"), "MIXED CASE 7\n");
}

#[test]
fn test_builder_chain() {
    let c = builder::ThingConfig::new().do_a().with_setting(3);
    assert!(c.does_a());
    assert!(!c.does_b());
    assert_eq!(c.setting(), 3);
    assert_eq!(c.another_setting(), 0);
}

#[test]
fn test_builder_errors_chain() {
    let c = builder_errors::ThingConfig::new()
        .do_a()
        .unwrap()
        .with_setting(3)
        .unwrap();
    assert!(c.does_a());
    assert_eq!(c.setting(), 3);
}

#[test]
fn test_builder_errors_out_of_range() {
    let r = builder_errors::ThingConfig::new().with_setting(11);
    match r {
        Err(e) => {
            assert_eq!(e, ThingError::SettingOutOfRange);
            assert_eq!(e.message(), "Setting must be between 0 and 10");
        },
        Ok(_) => panic!("a setting above the range must be refused"),
    }
    assert!(builder_errors::ThingConfig::new().with_setting(10).is_ok());
}

#[test]
fn test_byte_conversions() {
    assert_eq!(Kilobytes(2).to_bytes().0, 2048);
    assert_eq!(MegaBytes(8).to_bytes().0, 8 * 1024 * 1024);
}

#[test]
fn test_byte_scaling() {
    assert_eq!(MegaBytes(8).to_bytes().scaled(), (8, ByteUnit::Mb));
    assert_eq!(Bytes(2048).scaled(), (2, ByteUnit::Kb));
    assert_eq!(Bytes(100).scaled(), (100, ByteUnit::B));
    assert_eq!(Bytes(1024 * 1024 - 1).scaled(), (1023, ByteUnit::Kb));
    assert_eq!(Bytes(1023).scaled(), (1023, ByteUnit::B));
    assert_eq!(Bytes(0).scaled(), (0, ByteUnit::B));
}

#[test]
fn test_message_cache() {
    let mut cache = MessageCache::new();
    assert_eq!(cache.len(), 0);
    assert!(cache.lookup(1).is_none());
    cache.store(HelloJson { id: 1, message: "Hello".to_string() });
    assert_eq!(cache.len(), 1);
    let row = cache.lookup(1).expect("the stored row must be found");
    assert_eq!(row.id, 1);
    assert_eq!(row.message, "Hello");
    cache.store(HelloJson { id: 1, message: "Hello World!".to_string() });
    assert_eq!(cache.len(), 1);
    assert_eq!(cache.lookup(1).unwrap().message, "Hello World!");
    assert!(cache.lookup(2).is_none());
}

#[test]
fn test_primes() {
    assert!(is_prime(2));
    assert!(is_prime(7));
    assert!(is_prime(97));
    assert!(!is_prime(4));
    assert!(!is_prime(9));
    assert!(!is_prime(100));
    assert_eq!(count_primes(10), 4);
    assert_eq!(count_primes(100), 25);
    assert_eq!(count_primes(2), 0);
}

#[test]
fn test_get_rows() {
    let rows = get_rows();
    assert_eq!(rows.len(), 22);
    assert_eq!(rows[0].language, "English");
    assert_eq!(rows[0].message, "Hello");
    assert_eq!(rows[1].language, "French");
    assert_eq!(rows[1].message, "Bonjour");
    assert_eq!(rows[4].message, "Nǐn hǎo");
    assert_eq!(rows[21].language, "Swedish");
}

#[test]
fn test_count_lines() {
    assert_eq!(count_lines(b""), 0);
    assert_eq!(count_lines(b"one line"), 1);
    assert_eq!(count_lines(b"one line\n"), 1);
    assert_eq!(count_lines(b"a\nb"), 2);
    assert_eq!(count_lines(b"a\nb\n"), 2);
    assert_eq!(count_lines(b"\n\n"), 2);
}
