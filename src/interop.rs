//! Small functions that show how plain values cross to and from a host:
//! characters, strings, numbers, booleans, arrays, options, results, enums
//! and structs.
use vstd::prelude::*;
use vstd::string::*;

verus! {

/// The greeting that `string_example` and `str_example` put before a name.
pub open spec fn greeting(name: Seq<char>) -> Seq<char> {
    "Hello "@ + name
}

/// The message of the error that `result_example` returns.
pub open spec fn thrown_message() -> Seq<char> {
    "Look Pa, I'm throwing a JS error!"@
}

/// Ignores its argument and returns a rocket.
pub fn char_example(_c: char) -> (r: char)
    ensures
        r == '\u{1F680}',
{
    '\u{1F680}'
}

/// `"Hello "` followed by `s`.
pub fn string_example(s: String) -> (r: String)
    ensures
        r@ == greeting(s@),
{
    str_example(s.as_str())
}

/// `"Hello "` followed by `s`.
pub fn str_example(s: &str) -> (r: String)
    ensures
        r@ == greeting(s@),
{
    let mut r = String::from_str("Hello ");
    r.append(s);
    r
}

/// `n + 100`.
pub fn number_example(n: i32) -> (r: i32)
    requires
        n <= i32::MAX - 100,
    ensures
        r == n + 100,
{
    n + 100
}

/// Ignores its argument and returns `true`.
pub fn bool_example(_b: bool) -> (r: bool)
    ensures
        r,
{
    true
}

/// Ignores its argument and returns the numbers one to seven.
pub fn typed_array_example(_array: Vec<i32>) -> (r: Vec<i32>)
    ensures
        r@ == seq![1i32, 2, 3, 4, 5, 6, 7],
{
    let r = vec![1i32, 2, 3, 4, 5, 6, 7];
    assert(r@ =~= seq![1i32, 2, 3, 4, 5, 6, 7]);
    r
}

/// Always `None`.
pub fn option_example() -> (r: Option<i32>)
    ensures
        r is None,
{
    None
}

/// Always an error, with the message of `thrown_message`.
pub fn result_example() -> (r: Result<i32, String>)
    ensures
        r matches Err(e) && e@ == thrown_message(),
{
    Err(String::from_str("Look Pa, I'm throwing a JS error!"))
}

/// A yes-or-no choice.
#[derive(Clone, Copy, Debug, PartialEq, Eq, Structural)]
pub enum ExampleEnum {
    Yes,
    No,
}

/// Whether the choice is `Yes`.
pub fn verify_enum_choice(choice: ExampleEnum) -> (r: bool)
    ensures
        r == (choice is Yes),
{
    match choice {
        ExampleEnum::Yes => true,
        ExampleEnum::No => false,
    }
}

/// A struct with one integer field.
#[derive(Clone, Copy, Debug, PartialEq, Eq, Structural)]
pub struct ExampleStruct {
    pub value: i32,
}

impl ExampleStruct {
    pub fn new(value: i32) -> (r: ExampleStruct)
        ensures
            r.value == value,
    {
        ExampleStruct { value }
    }

    pub fn read_method(&self) -> (r: i32)
        ensures
            r == self.value,
    {
        self.value
    }

    pub fn write_method(&mut self, value: i32)
        ensures
            final(self).value == value,
    {
        self.value = value;
    }

    /// Hands the struct back unchanged.
    pub fn transfer_ownership(self) -> (r: ExampleStruct)
        ensures
            r == self,
    {
        self
    }
}

} // verus!
