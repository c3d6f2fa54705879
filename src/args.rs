//! Untyped request arguments and their validation against a schema.

use vstd::prelude::*;
use crate::schema::{FieldKind, FieldSpec};

verus! {

/// One argument value as the transport delivered it.
pub enum ArgValue {
    Null,
    Bool(bool),
    Int(i64),
    Text(String),
    /// Any other value (a fraction, an array, an object): its content is never read.
    Other,
}

/// One named argument of a request.
pub struct Argument {
    pub key: String,
    pub value: ArgValue,
}

/// What is wrong with a field's argument.
#[derive(PartialEq, Eq, Structural, Clone, Copy, Debug)]
pub enum Problem {
    Missing,
    WrongType,
}

/// The first violation found when checking arguments against fields.
pub struct ArgError {
    pub field: String,
    pub problem: Problem,
}

/// `i` is the first argument named `name`.
pub open spec fn first_with_key(args: Seq<Argument>, name: Seq<char>, i: int) -> bool {
    0 <= i < args.len() && args[i].key@ == name
        && forall|j: int| 0 <= j < i ==> args[j].key@ != name
}

/// The value of the first argument named `name`, if any.
pub open spec fn arg_value(args: Seq<Argument>, name: Seq<char>) -> Option<ArgValue> {
    if exists|i: int| first_with_key(args, name, i) {
        Some(args[choose|i: int| first_with_key(args, name, i)].value)
    } else {
        None
    }
}

/// Whether a value can stand for a field of this kind.
pub open spec fn value_fits(kind: FieldKind, required: bool, v: ArgValue) -> bool {
    match v {
        ArgValue::Null => !required,
        ArgValue::Bool(_) => kind == FieldKind::Boolean,
        ArgValue::Int(_) => kind == FieldKind::Integer,
        ArgValue::Text(_) => kind == FieldKind::Text,
        ArgValue::Other => false,
    }
}

/// What is wrong with the argument for field `f`, if anything. Arguments that
/// name no field are ignored.
pub open spec fn field_problem(f: FieldSpec, args: Seq<Argument>) -> Option<Problem> {
    match arg_value(args, f.name@) {
        Some(v) => if value_fits(f.kind, f.required, v) { None } else { Some(Problem::WrongType) },
        None => if f.required { Some(Problem::Missing) } else { None },
    }
}

/// Every field is satisfied by the arguments.
pub open spec fn args_valid(fields: Seq<FieldSpec>, args: Seq<Argument>) -> bool {
    forall|i: int| 0 <= i < fields.len() ==> field_problem(fields[i], args) is None
}

/// Field `i` is the first that the arguments do not satisfy.
pub open spec fn first_violation(fields: Seq<FieldSpec>, args: Seq<Argument>, i: int) -> bool {
    0 <= i < fields.len() && field_problem(fields[i], args) is Some
        && forall|k: int| 0 <= k < i ==> field_problem(fields[k], args) is None
}

/// The message that describes a violation.
pub open spec fn problem_message(field: Seq<char>, p: Problem) -> Seq<char> {
    match p {
        Problem::Missing => "missing field `"@ + field + "`"@,
        Problem::WrongType => "invalid type for field `"@ + field + "`"@,
    }
}

/// Looks up the first argument named `name`.
pub fn find_arg<'a>(args: &'a Vec<Argument>, name: &str) -> (r: Option<&'a ArgValue>)
    ensures
        r matches Some(v) ==> arg_value(args@, name@) == Some(*v),
        r is None ==> arg_value(args@, name@) is None,
{
    let mut i: usize = 0;
    while i < args.len()
        invariant
            i <= args@.len(),
            forall|j: int| 0 <= j < i ==> args@[j].key@ != name@,
        decreases args@.len() - i,
    {
        if str_eq(args[i].key.as_str(), name) {
            assert(first_with_key(args@, name@, i as int));
            assert forall|k: int| first_with_key(args@, name@, k) implies k == i by {
                if k < i {
                } else if k > i {
                    assert(args@[i as int].key@ == name@);
                }
            }
            return Some(&args[i].value);
        }
        i = i + 1;
    }
    None
}

/// Compares two strings character by character.
pub fn str_eq(a: &str, b: &str) -> (r: bool)
    ensures
        r == (a@ == b@),
{
    let n = a.unicode_len();
    if n != b.unicode_len() {
        return false;
    }
    let mut i: usize = 0;
    while i < n
        invariant
            n == a@.len() == b@.len(),
            i <= n,
            forall|k: int| 0 <= k < i ==> a@[k] == b@[k],
        decreases n - i,
    {
        if a.get_char(i) != b.get_char(i) {
            return false;
        }
        i = i + 1;
    }
    assert(a@ =~= b@);
    true
}

fn fits(kind: FieldKind, required: bool, v: &ArgValue) -> (r: bool)
    ensures
        r == value_fits(kind, required, *v),
{
    match v {
        ArgValue::Null => !required,
        ArgValue::Bool(_) => kind == FieldKind::Boolean,
        ArgValue::Int(_) => kind == FieldKind::Integer,
        ArgValue::Text(_) => kind == FieldKind::Text,
        ArgValue::Other => false,
    }
}

/// Checks one field against the arguments.
pub fn check_field(f: &FieldSpec, args: &Vec<Argument>) -> (r: Option<Problem>)
    ensures
        r == field_problem(*f, args@),
{
    match find_arg(args, f.name.as_str()) {
        Some(v) => if fits(f.kind, f.required, v) { None } else { Some(Problem::WrongType) },
        None => if f.required { Some(Problem::Missing) } else { None },
    }
}

/// Checks the arguments against the fields in order: `Ok` where every field is
/// satisfied, else the first field that is not and what is wrong with it.
pub fn validate_arguments(fields: &Vec<FieldSpec>, args: &Vec<Argument>) -> (r: Result<(), ArgError>)
    ensures
        r is Ok <==> args_valid(fields@, args@),
        r matches Err(e) ==> exists|i: int| first_violation(fields@, args@, i)
            && e.field@ == fields@[i].name@
            && field_problem(fields@[i], args@) == Some(e.problem),
{
    let mut i: usize = 0;
    while i < fields.len()
        invariant
            i <= fields@.len(),
            forall|k: int| 0 <= k < i ==> field_problem(#[trigger] fields@[k], args@) is None,
        decreases fields@.len() - i,
    {
        match check_field(&fields[i], args) {
            Some(p) => {
                assert(first_violation(fields@, args@, i as int));
                return Err(ArgError { field: fields[i].name.clone(), problem: p });
            },
            None => {},
        }
        i = i + 1;
    }
    Ok(())
}

impl ArgError {
    /// Describes the violation in words, naming the field.
    pub fn message(&self) -> (r: String)
        ensures
            r@ == problem_message(self.field@, self.problem),
    {
        let mut m = match self.problem {
            Problem::Missing => String::from_str("missing field `"),
            Problem::WrongType => String::from_str("invalid type for field `"),
        };
        m.append(self.field.as_str());
        m.append("`");
        m
    }
}

} // verus!
