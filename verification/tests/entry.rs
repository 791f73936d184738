use greeter::entry::{entry_sequence, parity_line, sum_line, Step};
use greeter::greeting::{hello_user, welcome_line};
use greeter::numbers::{add_numbers, is_even};

fn written(step: &Step) -> String {
    match step {
        Step::Print(line) => line.clone(),
        Step::Greet(name) => welcome_line(name),
    }
}

#[test]
fn sum_line_of_eight() {
    assert_eq!(sum_line(8), "Результат сложения: 8");
}

#[test]
fn sum_line_of_other_sums() {
    assert_eq!(sum_line(0), "Результат сложения: 0");
    assert_eq!(sum_line(-15), "Результат сложения: -15");
    assert_eq!(sum_line(add_numbers(40, 2)), "Результат сложения: 42");
}

#[test]
fn parity_line_of_seven() {
    assert_eq!(parity_line(7, is_even(7)), "Число 7 чётное: false");
}

#[test]
fn parity_line_of_other_numbers() {
    assert_eq!(parity_line(-4, is_even(-4)), "Число -4 чётное: true");
    assert_eq!(parity_line(0, is_even(0)), "Число 0 чётное: true");
    assert_eq!(parity_line(10, false), "Число 10 чётное: false");
}

#[test]
fn entry_sequence_has_six_steps() {
    assert_eq!(entry_sequence().len(), 6);
}

#[test]
fn entry_sequence_steps_in_order() {
    let expected = vec![
        Step::Print(String::from("=== Начало программы ===")),
        Step::Print(String::from("Результат сложения: 8")),
        Step::Greet(String::from("Алексей")),
        Step::Print(String::from("Привет Данил!")),
        Step::Print(String::from("Число 7 чётное: false")),
        Step::Print(String::from("=== Конец программы ===")),
    ];
    assert_eq!(entry_sequence(), expected);
}

#[test]
fn entry_sequence_welcomes_once_and_third() {
    let steps = entry_sequence();
    let mut welcomes: usize = 0;
    for step in &steps {
        if matches!(step, Step::Greet(_)) {
            welcomes += 1;
        }
    }
    assert_eq!(welcomes, 1);
    assert!(matches!(&steps[2], Step::Greet(name) if name == "Алексей"));
    assert!(matches!(&steps[3], Step::Print(line) if *line == hello_user("Данил")));
}

#[test]
fn entry_sequence_writes_the_six_lines() {
    let lines: Vec<String> = entry_sequence().iter().map(written).collect();
    let expected = vec![
        "=== Начало программы ===",
        "Результат сложения: 8",
        "Привет, Алексей! Добро пожаловать в Rust!",
        "Привет Данил!",
        "Число 7 чётное: false",
        "=== Конец программы ===",
    ];
    assert_eq!(lines, expected);
}

#[test]
fn entry_sequence_is_the_same_on_every_call() {
    assert_eq!(entry_sequence(), entry_sequence());
}
