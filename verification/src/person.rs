//! A person with an account status, and the greetings a person gives.

use crate::text::decimal;
use crate::text::decimal_string;
use vstd::prelude::*;
use vstd::std_specs::cmp::PartialEqSpecImpl;
use vstd::string::StringExecFns;

verus! {

/// From this age on a person counts as an adult.
pub const ADULT_AGE: u32 = 18;

/// The state of a person's account as a mathematical value.
pub enum StatusView {
    Active,
    Inactive,
    Pending { reason: Seq<char> },
}

/// The state of a person's account.
#[derive(Debug, Clone)]
pub enum Status {
    Active,
    Inactive,
    /// Not yet decided, with the reason why.
    Pending { reason: String },
}

impl View for Status {
    type V = StatusView;

    open spec fn view(&self) -> StatusView {
        match self {
            Status::Active => StatusView::Active,
            Status::Inactive => StatusView::Inactive,
            Status::Pending { reason } => StatusView::Pending { reason: reason@ },
        }
    }
}

impl StatusView {
    /// The text of the line that reports the state.
    pub open spec fn summary_text(self) -> Seq<char> {
        match self {
            StatusView::Active => "User is active"@,
            StatusView::Inactive => "User is inactive"@,
            StatusView::Pending { reason } => "User is pending: "@ + reason,
        }
    }
}

impl Status {
    /// One line that reports the state, with the reason where it is
    /// pending.
    pub fn summary(&self) -> (text: String)
        ensures
            text@ == self@.summary_text(),
    {
        match self {
            Status::Active => String::from_str("User is active"),
            Status::Inactive => String::from_str("User is inactive"),
            Status::Pending { reason } => String::from_str("User is pending: ").concat(
                reason.as_str(),
            ),
        }
    }
}

impl PartialEq for Status {
    fn eq(&self, other: &Status) -> (same: bool) {
        match (self, other) {
            (Status::Active, Status::Active) => true,
            (Status::Inactive, Status::Inactive) => true,
            (Status::Pending { reason: mine }, Status::Pending { reason: theirs }) => *mine
                == *theirs,
            _ => false,
        }
    }
}

impl PartialEqSpecImpl for Status {
    open spec fn obeys_eq_spec() -> bool {
        true
    }

    open spec fn eq_spec(&self, other: &Status) -> bool {
        self@ == other@
    }
}

/// A person as a mathematical value.
pub struct PersonView {
    pub name: Seq<char>,
    pub age: nat,
    pub email: Option<Seq<char>>,
    pub status: StatusView,
}

impl PersonView {
    /// The person as created from a name and an age: without an email
    /// address and active.
    pub open spec fn created(name: Seq<char>, age: nat) -> PersonView {
        PersonView { name, age, email: None, status: StatusView::Active }
    }

    /// The same person with `email` as the email address.
    pub open spec fn with_email(self, email: Seq<char>) -> PersonView {
        PersonView { email: Some(email), ..self }
    }

    /// The text of the person's own greeting.
    pub open spec fn greet_text(self) -> Seq<char> {
        "Hello, my name is "@ + self.name + " and I'm "@ + decimal(self.age) + " years old"@
    }

    /// The text of the short greeting.
    pub open spec fn short_greeting(self) -> Seq<char> {
        "Hi, I'm "@ + self.name
    }

    /// The text that describes the person.
    pub open spec fn description(self) -> Seq<char> {
        "Person { name: "@ + self.name + ", age: "@ + decimal(self.age) + " }"@
    }
}

/// The greeting that `greet_formal` makes of a plain one.
pub open spec fn formal_greeting(plain: Seq<char>) -> Seq<char> {
    "Good day, "@ + plain
}

/// A person: a name, an age, an optional email address and the state of
/// the account.
#[derive(Debug, Clone)]
pub struct Person {
    pub name: String,
    pub age: u32,
    pub email: Option<String>,
    status: Status,
}

impl View for Person {
    type V = PersonView;

    closed spec fn view(&self) -> PersonView {
        PersonView {
            name: self.name@,
            age: self.age as nat,
            email: match self.email {
                Some(text) => Some(text@),
                None => None,
            },
            status: self.status@,
        }
    }
}

impl Person {
    /// Creates a person without an email address, whose account is active.
    pub fn new(name: &str, age: u32) -> (person: Person)
        ensures
            person@ == PersonView::created(name@, age as nat),
    {
        Person { name: name.to_owned(), age, email: None, status: Status::Active }
    }

    /// The person's own greeting, with name and age.
    pub fn greet(&self) -> (text: String)
        ensures
            text@ == self@.greet_text(),
    {
        String::from_str("Hello, my name is ").concat(self.name.as_str()).concat(
            " and I'm ",
        ).concat(decimal_string(self.age).as_str()).concat(" years old")
    }

    /// Sets the email address, whatever it was before.
    pub fn set_email(&mut self, email: String)
        ensures
            final(self)@ == old(self)@.with_email(email@),
    {
        self.email = Some(email);
    }

    /// Whether the person has reached the adult age.
    pub fn is_adult(&self) -> (adult: bool)
        ensures
            adult == (self@.age >= ADULT_AGE),
    {
        self.age >= ADULT_AGE
    }

    /// The person's name.
    pub fn name(&self) -> (name: &str)
        ensures
            name@ == self@.name,
    {
        self.name.as_str()
    }

    /// The person's age.
    pub fn age(&self) -> (age: u32)
        ensures
            age == self@.age,
    {
        self.age
    }

    /// The person's email address, if one was set.
    pub fn email(&self) -> (email: Option<&str>)
        ensures
            email is Some <==> self@.email is Some,
            email is Some ==> email.unwrap()@ == self@.email.unwrap(),
    {
        match &self.email {
            Some(text) => Some(text.as_str()),
            None => None,
        }
    }

    /// The state of the person's account.
    pub fn status(&self) -> (status: &Status)
        ensures
            status@ == self@.status,
    {
        &self.status
    }

    /// Describes the person by name and age.
    pub fn describe(&self) -> (text: String)
        ensures
            text@ == self@.description(),
    {
        String::from_str("Person { name: ").concat(self.name.as_str()).concat(", age: ").concat(
            decimal_string(self.age).as_str(),
        ).concat(" }")
    }
}

/// Something that can greet: plainly, and formally on top of that.
pub trait Greeter {
    /// The text of the plain greeting.
    spec fn greeting(&self) -> Seq<char>;

    /// The plain greeting.
    fn greet(&self) -> (text: String)
        ensures
            text@ == self.greeting(),
    ;

    /// The formal greeting, made of the plain one.
    fn greet_formal(&self) -> (text: String)
        ensures
            text@ == formal_greeting(self.greeting()),
    {
        String::from_str("Good day, ").concat(self.greet().as_str())
    }
}

impl Greeter for Person {
    open spec fn greeting(&self) -> Seq<char> {
        self@.short_greeting()
    }

    fn greet(&self) -> (text: String) {
        String::from_str("Hi, I'm ").concat(self.name.as_str())
    }
}

/// Setting the same email address a second time changes nothing.
pub proof fn lemma_set_email_idempotent(person: Person, email: String)
    ensures
        person@.with_email(email@).with_email(email@) == person@.with_email(email@),
{
}

} // verus!
