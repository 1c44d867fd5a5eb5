//! Input validation: from the arguments that a caller submitted to the values
//! that a leaf's declared parameters take.

use crate::text::joined;
use crate::tree::{
    param_models, texts, well_formed_parameters, CommandNode, ParamDecl, ParamModel, ParamType,
    ParamValue, ValueModel,
};
use vstd::prelude::*;

verus! {

/// A value as a caller submitted it. `Other` stands for every shape that no
/// declared type can hold: a number with a fraction or outside the range of
/// `i64`, an array, an object.
#[derive(Debug, PartialEq, Eq)]
pub enum RawValue {
    Null,
    Boolean(bool),
    Integer(i64),
    Text(String),
    Other,
}

/// What a `RawValue` stands for.
pub enum RawModel {
    Null,
    Boolean(bool),
    Integer(int),
    Text(Seq<char>),
    Other,
}

impl View for RawValue {
    type V = RawModel;

    open spec fn view(&self) -> RawModel {
        match self {
            RawValue::Null => RawModel::Null,
            RawValue::Boolean(b) => RawModel::Boolean(*b),
            RawValue::Integer(n) => RawModel::Integer(*n as int),
            RawValue::Text(s) => RawModel::Text(s@),
            RawValue::Other => RawModel::Other,
        }
    }
}

/// One submitted argument.
#[derive(Debug, PartialEq, Eq)]
pub struct Argument {
    pub name: String,
    pub value: RawValue,
}

impl View for Argument {
    type V = (Seq<char>, RawModel);

    open spec fn view(&self) -> (Seq<char>, RawModel) {
        (self.name@, self.value@)
    }
}

/// What a sequence of arguments stands for.
pub open spec fn argument_models(arguments: Seq<Argument>) -> Seq<(Seq<char>, RawModel)> {
    Seq::new(arguments.len(), |i: int| arguments[i]@)
}

/// What a caller submits with a request: the arguments, and whether the
/// answer shall hold the statistics of the run. Where two arguments share a
/// name, the first one counts.
#[derive(Debug, PartialEq, Eq)]
pub struct CommandInput {
    pub arguments: Vec<Argument>,
    pub statistics: bool,
}

/// What a `CommandInput` stands for.
pub struct InputModel {
    pub arguments: Seq<(Seq<char>, RawModel)>,
    pub statistics: bool,
}

impl View for CommandInput {
    type V = InputModel;

    open spec fn view(&self) -> InputModel {
        InputModel { arguments: argument_models(self.arguments@), statistics: self.statistics }
    }
}

/// The value that one declared parameter takes.
#[derive(Debug, PartialEq, Eq)]
pub struct Assignment {
    pub name: String,
    pub value: ParamValue,
}

impl View for Assignment {
    type V = (Seq<char>, ValueModel);

    open spec fn view(&self) -> (Seq<char>, ValueModel) {
        (self.name@, self.value@)
    }
}

/// The values of the declared parameters of a leaf, in the order of their
/// declaration.
#[derive(Debug, PartialEq, Eq)]
pub struct NormalizedInput {
    pub values: Vec<Assignment>,
}

impl View for NormalizedInput {
    type V = Seq<(Seq<char>, ValueModel)>;

    open spec fn view(&self) -> Seq<(Seq<char>, ValueModel)> {
        Seq::new(self.values@.len(), |i: int| self.values@[i]@)
    }
}

/// Why submitted arguments were turned down. Each variant holds the name of
/// the parameter it is about.
#[derive(Debug, PartialEq, Eq)]
pub enum ValidationError {
    MissingRequired { name: String },
    UnknownParameter { name: String },
    TypeMismatch { name: String },
    EnumMismatch { name: String },
}

/// What a `ValidationError` stands for.
pub enum Fault {
    MissingRequired(Seq<char>),
    UnknownParameter(Seq<char>),
    TypeMismatch(Seq<char>),
    EnumMismatch(Seq<char>),
}

impl View for ValidationError {
    type V = Fault;

    open spec fn view(&self) -> Fault {
        match self {
            ValidationError::MissingRequired { name } => Fault::MissingRequired(name@),
            ValidationError::UnknownParameter { name } => Fault::UnknownParameter(name@),
            ValidationError::TypeMismatch { name } => Fault::TypeMismatch(name@),
            ValidationError::EnumMismatch { name } => Fault::EnumMismatch(name@),
        }
    }
}

/// The value of the first argument named `name`, at index `from` or later.
pub open spec fn argument_from(
    arguments: Seq<(Seq<char>, RawModel)>,
    name: Seq<char>,
    from: int,
) -> Option<RawModel>
    decreases arguments.len() - from,
{
    if from < 0 || from >= arguments.len() {
        None
    } else if arguments[from].0 == name {
        Some(arguments[from].1)
    } else {
        argument_from(arguments, name, from + 1)
    }
}

/// The value submitted under `name`, if any.
pub open spec fn argument_named(arguments: Seq<(Seq<char>, RawModel)>, name: Seq<char>) -> Option<
    RawModel,
> {
    argument_from(arguments, name, 0)
}

/// The value of the declared type that `raw` stands for. A text is a text,
/// an integer an integer, a boolean a boolean, and nothing is converted from
/// one to another. A member of an enumeration is a text that is one of the
/// allowed values.
pub open spec fn coercion(decl: ParamModel, raw: RawModel) -> Result<ValueModel, Fault> {
    match decl.kind {
        ParamType::Text => match raw {
            RawModel::Text(s) => Ok(ValueModel::Text(s)),
            _ => Err(Fault::TypeMismatch(decl.name)),
        },
        ParamType::Integer => match raw {
            RawModel::Integer(n) => Ok(ValueModel::Integer(n)),
            _ => Err(Fault::TypeMismatch(decl.name)),
        },
        ParamType::Boolean => match raw {
            RawModel::Boolean(b) => Ok(ValueModel::Boolean(b)),
            _ => Err(Fault::TypeMismatch(decl.name)),
        },
        ParamType::Enumeration => match raw {
            RawModel::Text(s) => if decl.allowed.contains(s) {
                Ok(ValueModel::Text(s))
            } else {
                Err(Fault::EnumMismatch(decl.name))
            },
            _ => Err(Fault::EnumMismatch(decl.name)),
        },
    }
}

/// The value that the parameter `decl` takes under `arguments`: the submitted
/// one, coerced; where none was submitted, the default of an optional
/// parameter. A required parameter is missing where none was submitted, and
/// so is an optional one that has no default to fall back on.
pub open spec fn outcome(decl: ParamModel, arguments: Seq<(Seq<char>, RawModel)>) -> Result<
    ValueModel,
    Fault,
> {
    match argument_named(arguments, decl.name) {
        Some(raw) => coercion(decl, raw),
        None => if !decl.required && decl.default is Some {
            Ok(decl.default->0)
        } else {
            Err(Fault::MissingRequired(decl.name))
        },
    }
}

/// The values of the first `upto` parameters, or the fault of the first of
/// them that has one.
pub open spec fn normalized_upto(
    params: Seq<ParamModel>,
    arguments: Seq<(Seq<char>, RawModel)>,
    upto: int,
) -> Result<Seq<(Seq<char>, ValueModel)>, Fault>
    decreases upto,
{
    if upto <= 0 {
        Ok(Seq::empty())
    } else {
        match normalized_upto(params, arguments, upto - 1) {
            Err(fault) => Err(fault),
            Ok(values) => match outcome(params[upto - 1], arguments) {
                Err(fault) => Err(fault),
                Ok(value) => Ok(values.push((params[upto - 1].name, value))),
            },
        }
    }
}

/// Whether `params` declares a parameter named `name`.
pub open spec fn declares(params: Seq<ParamModel>, name: Seq<char>) -> bool {
    exists|i: int| 0 <= i < params.len() && (#[trigger] params[i]).name == name
}

/// The name of the first argument, at index `from` or later, that `params`
/// does not declare.
pub open spec fn first_unknown(
    params: Seq<ParamModel>,
    arguments: Seq<(Seq<char>, RawModel)>,
    from: int,
) -> Option<Seq<char>>
    decreases arguments.len() - from,
{
    if from < 0 || from >= arguments.len() {
        None
    } else if !declares(params, arguments[from].0) {
        Some(arguments[from].0)
    } else {
        first_unknown(params, arguments, from + 1)
    }
}

/// The outcome of validation. The declared parameters are taken in the order
/// of their declaration, and the first fault among them is the outcome. Where
/// they have none, the first argument that is not declared is the fault.
/// Otherwise each declared parameter has its value.
pub open spec fn validation(params: Seq<ParamModel>, arguments: Seq<(Seq<char>, RawModel)>) -> Result<
    Seq<(Seq<char>, ValueModel)>,
    Fault,
> {
    match normalized_upto(params, arguments, params.len() as int) {
        Err(fault) => Err(fault),
        Ok(values) => match first_unknown(params, arguments, 0) {
            Some(name) => Err(Fault::UnknownParameter(name)),
            None => Ok(values),
        },
    }
}

/// The value submitted under `name`, if any.
pub fn find_argument<'a>(arguments: &'a Vec<Argument>, name: &String) -> (r: Option<&'a RawValue>)
    ensures
        match r {
            Some(raw) => argument_named(argument_models(arguments@), name@) == Some(raw@),
            None => argument_named(argument_models(arguments@), name@) is None,
        },
{
    let mut i: usize = 0;
    while i < arguments.len()
        invariant
            i <= arguments@.len(),
            argument_named(argument_models(arguments@), name@) == argument_from(
                argument_models(arguments@),
                name@,
                i as int,
            ),
        decreases arguments@.len() - i,
    {
        assert(argument_models(arguments@)[i as int] == arguments@[i as int]@);
        if arguments[i].name == *name {
            return Some(&arguments[i].value);
        }
        i = i + 1;
    }
    None
}

/// Whether `text` is one of `items`.
pub fn contains_text(items: &Vec<String>, text: &String) -> (r: bool)
    ensures
        r == texts(items@).contains(text@),
{
    let mut i: usize = 0;
    while i < items.len()
        invariant
            i <= items@.len(),
            forall|k: int| 0 <= k < i ==> texts(items@)[k] != text@,
        decreases items@.len() - i,
    {
        assert(texts(items@)[i as int] == items@[i as int]@);
        if items[i] == *text {
            return true;
        }
        i = i + 1;
    }
    false
}

/// Coerces a submitted value to the type that `decl` declares.
pub fn coerce(decl: &ParamDecl, raw: &RawValue) -> (r: Result<ParamValue, ValidationError>)
    ensures
        match coercion(decl@, raw@) {
            Ok(value) => r matches Ok(v) && v@ == value,
            Err(fault) => r matches Err(e) && e@ == fault,
        },
{
    match decl.kind {
        ParamType::Text => match raw {
            RawValue::Text(s) => Ok(ParamValue::Text(s.clone())),
            _ => Err(ValidationError::TypeMismatch { name: decl.name.clone() }),
        },
        ParamType::Integer => match raw {
            RawValue::Integer(n) => Ok(ParamValue::Integer(*n)),
            _ => Err(ValidationError::TypeMismatch { name: decl.name.clone() }),
        },
        ParamType::Boolean => match raw {
            RawValue::Boolean(b) => Ok(ParamValue::Boolean(*b)),
            _ => Err(ValidationError::TypeMismatch { name: decl.name.clone() }),
        },
        ParamType::Enumeration => match raw {
            RawValue::Text(s) => {
                if contains_text(&decl.allowed, s) {
                    Ok(ParamValue::Text(s.clone()))
                } else {
                    Err(ValidationError::EnumMismatch { name: decl.name.clone() })
                }
            },
            _ => Err(ValidationError::EnumMismatch { name: decl.name.clone() }),
        },
    }
}

/// The value that one declared parameter takes under `arguments`.
pub fn settle(decl: &ParamDecl, arguments: &Vec<Argument>) -> (r: Result<
    ParamValue,
    ValidationError,
>)
    ensures
        match outcome(decl@, argument_models(arguments@)) {
            Ok(value) => r matches Ok(v) && v@ == value,
            Err(fault) => r matches Err(e) && e@ == fault,
        },
{
    match find_argument(arguments, &decl.name) {
        Some(raw) => coerce(decl, raw),
        None => {
            if decl.required {
                Err(ValidationError::MissingRequired { name: decl.name.clone() })
            } else {
                match &decl.default {
                    Some(d) => Ok(d.clone()),
                    None => Err(ValidationError::MissingRequired { name: decl.name.clone() }),
                }
            }
        },
    }
}

/// Whether `params` declares a parameter named `name`.
pub fn is_declared(params: &Vec<ParamDecl>, name: &String) -> (r: bool)
    ensures
        r == declares(param_models(params@), name@),
{
    let mut i: usize = 0;
    while i < params.len()
        invariant
            i <= params@.len(),
            forall|k: int| 0 <= k < i ==> (#[trigger] param_models(params@)[k]).name != name@,
        decreases params@.len() - i,
    {
        assert(param_models(params@)[i as int] == params@[i as int]@);
        if params[i].name == *name {
            return true;
        }
        i = i + 1;
    }
    false
}

/// A fault among the first parameters is the fault of the whole.
pub proof fn lemma_fault_stays(
    params: Seq<ParamModel>,
    arguments: Seq<(Seq<char>, RawModel)>,
    at: int,
    upto: int,
)
    requires
        at <= upto,
        normalized_upto(params, arguments, at) is Err,
    ensures
        normalized_upto(params, arguments, upto) == normalized_upto(params, arguments, at),
    decreases upto - at,
{
    if at < upto {
        lemma_fault_stays(params, arguments, at, upto - 1);
    }
}

/// Checks the submitted arguments against the parameters that `leaf`
/// declares. Each declared parameter gets its value: the submitted one,
/// coerced to the declared type, or the default of an optional parameter
/// that was not submitted. The first declared parameter that cannot be
/// settled gives the error; where all can, an argument that `leaf` does not
/// declare gives it. Neither `leaf` nor `input` is changed, and nothing else
/// is read.
pub fn validate(leaf: &CommandNode, input: &CommandInput) -> (r: Result<
    NormalizedInput,
    ValidationError,
>)
    ensures
        match validation(leaf@.parameters, input@.arguments) {
            Ok(values) => r matches Ok(normalized) && normalized@ == values,
            Err(fault) => r matches Err(e) && e@ == fault,
        },
{
    proof {
        leaf.lemma_view_children();
    }
    let ghost params = param_models(leaf.parameters@);
    let ghost arguments = argument_models(input.arguments@);
    let mut values: Vec<Assignment> = Vec::new();
    let mut i: usize = 0;
    proof {
        assert(Seq::new(values@.len(), |k: int| values@[k]@) =~= Seq::<
            (Seq<char>, ValueModel),
        >::empty());
    }
    while i < leaf.parameters.len()
        invariant
            i <= leaf.parameters@.len(),
            params == param_models(leaf.parameters@),
            arguments == argument_models(input.arguments@),
            normalized_upto(params, arguments, i as int) == Ok::<
                Seq<(Seq<char>, ValueModel)>,
                Fault,
            >(Seq::new(values@.len(), |k: int| values@[k]@)),
        decreases leaf.parameters@.len() - i,
    {
        let decl = &leaf.parameters[i];
        assert(params[i as int] == decl@);
        match settle(decl, &input.arguments) {
            Ok(value) => {
                let ghost before = Seq::new(values@.len(), |k: int| values@[k]@);
                values.push(Assignment { name: decl.name.clone(), value });
                proof {
                    assert(Seq::new(values@.len(), |k: int| values@[k]@) =~= before.push(
                        (decl.name@, value@),
                    ));
                }
            },
            Err(e) => {
                proof {
                    lemma_fault_stays(params, arguments, i as int + 1, params.len() as int);
                }
                return Err(e);
            },
        }
        i = i + 1;
    }
    let mut j: usize = 0;
    while j < input.arguments.len()
        invariant
            j <= input.arguments@.len(),
            params == param_models(leaf.parameters@),
            arguments == argument_models(input.arguments@),
            first_unknown(params, arguments, 0) == first_unknown(params, arguments, j as int),
            normalized_upto(params, arguments, params.len() as int) is Ok,
        decreases input.arguments@.len() - j,
    {
        assert(arguments[j as int] == input.arguments@[j as int]@);
        if !is_declared(&leaf.parameters, &input.arguments[j].name) {
            return Err(ValidationError::UnknownParameter { name: input.arguments[j].name.clone() });
        }
        j = j + 1;
    }
    Ok(NormalizedInput { values })
}

/// Where the first `upto` parameters have no fault, each of them has its
/// value, under its name and in the order of declaration.
pub proof fn lemma_normalized_shape(
    params: Seq<ParamModel>,
    arguments: Seq<(Seq<char>, RawModel)>,
    upto: int,
)
    requires
        0 <= upto <= params.len(),
        normalized_upto(params, arguments, upto) is Ok,
    ensures
        normalized_upto(params, arguments, upto)->Ok_0.len() == upto,
        forall|i: int|
            0 <= i < upto ==> {
                &&& (#[trigger] normalized_upto(params, arguments, upto)->Ok_0[i]).0
                    == params[i].name
                &&& outcome(params[i], arguments) == Ok::<ValueModel, Fault>(
                    normalized_upto(params, arguments, upto)->Ok_0[i].1,
                )
            },
    decreases upto,
{
    if upto > 0 {
        lemma_normalized_shape(params, arguments, upto - 1);
    }
}

/// A value that a well-formed declaration takes is one that it accepts.
pub proof fn lemma_outcome_is_accepted(decl: ParamModel, arguments: Seq<(Seq<char>, RawModel)>)
    requires
        decl.well_formed(),
        outcome(decl, arguments) is Ok,
    ensures
        decl.accepts(outcome(decl, arguments)->Ok_0),
{
}

/// A submitted value is accepted as a member of an enumeration exactly when
/// it is a text that is one of the allowed values; it is then taken as it
/// is, and every other value is turned down as no member.
pub proof fn lemma_enumeration_exact(decl: ParamModel, raw: RawModel)
    requires
        decl.kind == ParamType::Enumeration,
    ensures
        coercion(decl, raw) is Ok <==> (raw is Text && decl.allowed.contains(raw->Text_0)),
        coercion(decl, raw) matches Ok(value) ==> value == ValueModel::Text(raw->Text_0),
        coercion(decl, raw) matches Err(fault) ==> fault == Fault::EnumMismatch(decl.name),
{
}

/// On success validation yields exactly the declared parameters, in the
/// order of their declaration, each with a value that its declaration
/// accepts, and every submitted argument was declared.
pub proof fn lemma_validation_conforms(
    params: Seq<ParamModel>,
    arguments: Seq<(Seq<char>, RawModel)>,
)
    requires
        forall|i: int| 0 <= i < params.len() ==> (#[trigger] params[i]).well_formed(),
        validation(params, arguments) is Ok,
    ensures
        validation(params, arguments)->Ok_0.len() == params.len(),
        forall|i: int|
            0 <= i < params.len() ==> {
                &&& (#[trigger] validation(params, arguments)->Ok_0[i]).0 == params[i].name
                &&& params[i].accepts(validation(params, arguments)->Ok_0[i].1)
            },
        forall|j: int|
            0 <= j < arguments.len() ==> declares(params, (#[trigger] arguments[j]).0),
{
    lemma_normalized_shape(params, arguments, params.len() as int);
    let values = validation(params, arguments)->Ok_0;
    assert forall|i: int| 0 <= i < params.len() implies params[i].accepts(
        (#[trigger] values[i]).1,
    ) by {
        assert(values == normalized_upto(params, arguments, params.len() as int)->Ok_0);
        assert(outcome(params[i], arguments) == Ok::<ValueModel, Fault>(
            normalized_upto(params, arguments, params.len() as int)->Ok_0[i].1,
        ));
        lemma_outcome_is_accepted(params[i], arguments);
    }
    lemma_no_unknown(params, arguments, 0);
}

/// Where no argument from index `from` on is unknown, each of them is
/// declared.
pub proof fn lemma_no_unknown(
    params: Seq<ParamModel>,
    arguments: Seq<(Seq<char>, RawModel)>,
    from: int,
)
    requires
        0 <= from,
        first_unknown(params, arguments, from) is None,
    ensures
        forall|j: int|
            from <= j < arguments.len() ==> declares(params, (#[trigger] arguments[j]).0),
    decreases arguments.len() - from,
{
    if from < arguments.len() {
        lemma_no_unknown(params, arguments, from + 1);
    }
}

/// Where every argument from index `from` on is declared, none is unknown.
pub proof fn lemma_all_declared(
    params: Seq<ParamModel>,
    arguments: Seq<(Seq<char>, RawModel)>,
    from: int,
)
    requires
        0 <= from,
        forall|j: int|
            from <= j < arguments.len() ==> declares(params, (#[trigger] arguments[j]).0),
    ensures
        first_unknown(params, arguments, from) is None,
    decreases arguments.len() - from,
{
    if from < arguments.len() {
        lemma_all_declared(params, arguments, from + 1);
    }
}

/// The argument at index `at` is the one found under its name, where no
/// argument between `from` and `at` bears that name.
pub proof fn lemma_argument_found(
    arguments: Seq<(Seq<char>, RawModel)>,
    from: int,
    at: int,
)
    requires
        0 <= from <= at < arguments.len(),
        forall|j: int| from <= j < at ==> (#[trigger] arguments[j]).0 != arguments[at].0,
    ensures
        argument_from(arguments, arguments[at].0, from) == Some(arguments[at].1),
    decreases at - from,
{
    if from < at {
        lemma_argument_found(arguments, from + 1, at);
    }
}

/// The submitted form of a value.
pub open spec fn raw_of(value: ValueModel) -> RawModel {
    match value {
        ValueModel::Text(s) => RawModel::Text(s),
        ValueModel::Integer(n) => RawModel::Integer(n),
        ValueModel::Boolean(b) => RawModel::Boolean(b),
    }
}

/// The arguments that hand normalized values in again.
pub open spec fn resubmitted(values: Seq<(Seq<char>, ValueModel)>) -> Seq<(Seq<char>, RawModel)> {
    Seq::new(values.len(), |i: int| (values[i].0, raw_of(values[i].1)))
}

proof fn lemma_resubmitted_upto(
    params: Seq<ParamModel>,
    arguments: Seq<(Seq<char>, RawModel)>,
    values: Seq<(Seq<char>, ValueModel)>,
    upto: int,
)
    requires
        well_formed_parameters(params),
        normalized_upto(params, arguments, params.len() as int) == Ok::<
            Seq<(Seq<char>, ValueModel)>,
            Fault,
        >(values),
        0 <= upto <= params.len(),
    ensures
        normalized_upto(params, resubmitted(values), upto) == Ok::<
            Seq<(Seq<char>, ValueModel)>,
            Fault,
        >(values.subrange(0, upto)),
    decreases upto,
{
    lemma_normalized_shape(params, arguments, params.len() as int);
    if upto > 0 {
        lemma_resubmitted_upto(params, arguments, values, upto - 1);
        let again = resubmitted(values);
        let at = upto - 1;
        assert(again[at] == (values[at].0, raw_of(values[at].1)));
        assert forall|j: int| 0 <= j < at implies (#[trigger] again[j]).0 != again[at].0 by {
            assert(values[j].0 == params[j].name);
            assert(values[at].0 == params[at].name);
        }
        lemma_argument_found(again, 0, at);
        lemma_outcome_is_accepted(params[at], arguments);
        assert(outcome(params[at], again) == Ok::<ValueModel, Fault>(values[at].1));
        assert(values.subrange(0, at).push(values[at]) =~= values.subrange(0, upto));
    } else {
        assert(values.subrange(0, 0) =~= Seq::<(Seq<char>, ValueModel)>::empty());
    }
}

/// Validation is idempotent: normalized values, handed in again as
/// arguments, are accepted and come out as they are.
pub proof fn lemma_validate_idempotent(
    params: Seq<ParamModel>,
    arguments: Seq<(Seq<char>, RawModel)>,
)
    requires
        well_formed_parameters(params),
        validation(params, arguments) is Ok,
    ensures
        validation(params, resubmitted(validation(params, arguments)->Ok_0)) == validation(
            params,
            arguments,
        ),
{
    let values = validation(params, arguments)->Ok_0;
    let again = resubmitted(values);
    lemma_normalized_shape(params, arguments, params.len() as int);
    lemma_resubmitted_upto(params, arguments, values, params.len() as int);
    assert(values.subrange(0, params.len() as int) =~= values);
    assert forall|j: int| 0 <= j < again.len() implies declares(params, (#[trigger] again[j]).0) by {
        assert(values[j].0 == params[j].name);
    }
    lemma_all_declared(params, again, 0);
}

impl Fault {
    /// The message of the fault: what is wrong, and the name of the
    /// parameter.
    pub open spec fn message_text(&self) -> Seq<char> {
        match self {
            Fault::MissingRequired(name) => "missing required parameter "@ + *name,
            Fault::UnknownParameter(name) => "unknown parameter "@ + *name,
            Fault::TypeMismatch(name) => "wrong type of value for parameter "@ + *name,
            Fault::EnumMismatch(name) => "value not allowed for parameter "@ + *name,
        }
    }
}

impl ValidationError {
    /// The message of the error.
    pub fn message(&self) -> (text: String)
        ensures
            text@ == self@.message_text(),
    {
        match self {
            ValidationError::MissingRequired { name } => joined(
                "missing required parameter ",
                name.as_str(),
            ),
            ValidationError::UnknownParameter { name } => joined(
                "unknown parameter ",
                name.as_str(),
            ),
            ValidationError::TypeMismatch { name } => joined(
                "wrong type of value for parameter ",
                name.as_str(),
            ),
            ValidationError::EnumMismatch { name } => joined(
                "value not allowed for parameter ",
                name.as_str(),
            ),
        }
    }
}

} // verus!
