//! The entry sequence: the steps that one run of the program takes, in
//! order, and the lines that they put on the console.

use crate::decimal::{bool_text, decimal_int, render_bool, render_i32};
use crate::greeting::{hello_text, hello_user, welcome_text};
use crate::numbers::{add_numbers, even, is_even};
use vstd::prelude::*;

verus! {

/// One step of a run.
#[derive(Debug, Clone, PartialEq, Eq)]
pub enum Step {
    /// Write the line that the step carries.
    Print(String),
    /// Welcome the user whose name the step carries. The routine that
    /// welcomes writes its line to the console itself.
    Greet(String),
}

/// What a step is, with its text as a sequence of characters.
pub enum StepModel {
    /// A line to write.
    Print(Seq<char>),
    /// The name of a user to welcome.
    Greet(Seq<char>),
}

impl View for Step {
    type V = StepModel;

    open spec fn view(&self) -> StepModel {
        match self {
            Step::Print(line) => StepModel::Print(line@),
            Step::Greet(name) => StepModel::Greet(name@),
        }
    }
}

impl StepModel {
    /// The line that the step puts on the console.
    pub open spec fn written(self) -> Seq<char> {
        match self {
            StepModel::Print(line) => line,
            StepModel::Greet(name) => welcome_text(name),
        }
    }
}

/// The models of a list of steps, in order.
pub open spec fn models(steps: Seq<Step>) -> Seq<StepModel> {
    steps.map_values(|step: Step| step@)
}

/// The lines that a list of steps puts on the console, in order.
pub open spec fn output_of(plan: Seq<StepModel>) -> Seq<Seq<char>> {
    plan.map_values(|step: StepModel| step.written())
}

/// The line that reports a sum.
pub open spec fn sum_text(sum: int) -> Seq<char> {
    "Результат сложения: "@ + decimal_int(sum)
}

/// The line that reports whether `number` is even.
pub open spec fn parity_text(number: int, parity: bool) -> Seq<char> {
    "Число "@ + decimal_int(number) + " чётное: "@ + bool_text(parity)
}

/// The first line of a run.
pub open spec fn start_banner() -> Seq<char> {
    "=== Начало программы ==="@
}

/// The last line of a run.
pub open spec fn end_banner() -> Seq<char> {
    "=== Конец программы ==="@
}

/// The steps of a run: the opening banner, the sum of 5 and 3, the welcome,
/// the short greeting, the parity of 7, the closing banner.
pub open spec fn entry_plan() -> Seq<StepModel> {
    seq![
        StepModel::Print(start_banner()),
        StepModel::Print(sum_text(5int + 3int)),
        StepModel::Greet("Алексей"@),
        StepModel::Print(hello_text("Данил"@)),
        StepModel::Print(parity_text(7, even(7))),
        StepModel::Print(end_banner()),
    ]
}

/// Builds the line that reports `sum`.
pub fn sum_line(sum: i32) -> (line: String)
    ensures
        line@ == sum_text(sum as int),
{
    String::from_str("Результат сложения: ").concat(render_i32(sum).as_str())
}

/// Builds the line that reports `number` and whether it is even, as the
/// caller found it.
pub fn parity_line(number: i32, parity: bool) -> (line: String)
    ensures
        line@ == parity_text(number as int, parity),
{
    String::from_str("Число ").concat(render_i32(number).as_str()).concat(" чётное: ").concat(
        render_bool(parity),
    )
}

/// Builds the steps of a run, in the order in which they are to be taken.
pub fn entry_sequence() -> (steps: Vec<Step>)
    ensures
        models(steps@) == entry_plan(),
{
    let sum = add_numbers(5, 3);
    let number: i32 = 7;
    let parity = is_even(number);
    let mut steps: Vec<Step> = Vec::new();
    steps.push(Step::Print(String::from_str("=== Начало программы ===")));
    steps.push(Step::Print(sum_line(sum)));
    steps.push(Step::Greet(String::from_str("Алексей")));
    steps.push(Step::Print(hello_user("Данил")));
    steps.push(Step::Print(parity_line(number, parity)));
    steps.push(Step::Print(String::from_str("=== Конец программы ===")));
    assert(models(steps@) =~= entry_plan());
    steps
}

/// A run writes exactly six lines, and these are their texts, in order.
pub proof fn entry_output_is_fixed()
    ensures
        output_of(entry_plan()) == seq![
            "=== Начало программы ==="@,
            "Результат сложения: 8"@,
            "Привет, Алексей! Добро пожаловать в Rust!"@,
            "Привет Данил!"@,
            "Число 7 чётное: false"@,
            "=== Конец программы ==="@,
        ],
{
    reveal_strlit("Результат сложения: ");
    reveal_strlit("Результат сложения: 8");
    reveal_strlit("Привет, ");
    reveal_strlit("Алексей");
    reveal_strlit("! Добро пожаловать в Rust!");
    reveal_strlit("Привет, Алексей! Добро пожаловать в Rust!");
    reveal_strlit("Привет ");
    reveal_strlit("Данил");
    reveal_strlit("!");
    reveal_strlit("Привет Данил!");
    reveal_strlit("Число ");
    reveal_strlit(" чётное: ");
    reveal_strlit("Число 7 чётное: false");
    assert(sum_text(5int + 3int) =~= "Результат сложения: 8"@);
    assert(welcome_text("Алексей"@) =~= "Привет, Алексей! Добро пожаловать в Rust!"@);
    assert(hello_text("Данил"@) =~= "Привет Данил!"@);
    assert(parity_text(7, even(7)) =~= "Число 7 чётное: false"@);
    assert(output_of(entry_plan()) =~= seq![
        "=== Начало программы ==="@,
        "Результат сложения: 8"@,
        "Привет, Алексей! Добро пожаловать в Rust!"@,
        "Привет Данил!"@,
        "Число 7 чётное: false"@,
        "=== Конец программы ==="@,
    ]);
}

} // verus!
