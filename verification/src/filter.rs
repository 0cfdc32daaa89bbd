//! The list filter: one equality clause for each field that the caller
//! gave, all of which a record must meet.

use vstd::prelude::*;
use crate::number::Number;

verus! {

/// A field that a list can be filtered by.
#[derive(Debug, Clone, Copy, PartialEq, Eq, Hash)]
pub enum FilterField {
    Name,
    Model,
    Temperature,
}

/// The value that a clause asks for.
#[derive(Debug, Clone, PartialEq)]
pub enum FilterValue {
    Text(String),
    Number(Number),
}

/// A value of a record's field, as plain data.
pub enum FieldValue {
    Text(Seq<char>),
    Number(u64),
}

impl View for FilterValue {
    type V = FieldValue;

    open spec fn view(&self) -> FieldValue {
        match self {
            FilterValue::Text(text) => FieldValue::Text(text@),
            FilterValue::Number(number) => FieldValue::Number(number.bits),
        }
    }
}

/// One equality clause: the field must have the value.
#[derive(Debug, Clone, PartialEq)]
pub struct Clause {
    pub field: FilterField,
    pub value: FilterValue,
}

impl View for Clause {
    type V = (FilterField, FieldValue);

    open spec fn view(&self) -> (FilterField, FieldValue) {
        (self.field, self.value@)
    }
}

/// A filter: its clauses, all of which a record must meet.
#[derive(Debug, Clone, PartialEq)]
pub struct Filter {
    pub clauses: Vec<Clause>,
}

impl View for Filter {
    type V = Seq<(FilterField, FieldValue)>;

    open spec fn view(&self) -> Seq<(FilterField, FieldValue)> {
        Seq::new(self.clauses@.len(), |i: int| self.clauses@[i]@)
    }
}

/// The clause for a text field, if a value was given.
pub open spec fn text_clause(field: FilterField, value: Option<String>) -> Seq<
    (FilterField, FieldValue),
> {
    match value {
        Some(text) => seq![(field, FieldValue::Text(text@))],
        None => seq![],
    }
}

/// The clause for a number field, if a value was given.
pub open spec fn number_clause(field: FilterField, value: Option<Number>) -> Seq<
    (FilterField, FieldValue),
> {
    match value {
        Some(number) => seq![(field, FieldValue::Number(number.bits))],
        None => seq![],
    }
}

/// The clauses of the filter for the given inputs: one for each input that
/// is present, in the order name, model, temperature.
pub open spec fn filter_clauses(
    name: Option<String>,
    model: Option<String>,
    temperature: Option<Number>,
) -> Seq<(FilterField, FieldValue)> {
    text_clause(FilterField::Name, name) + text_clause(FilterField::Model, model) + number_clause(
        FilterField::Temperature,
        temperature,
    )
}

/// A record, seen as the values of its fields, meets every clause.
pub open spec fn matches(
    clauses: Seq<(FilterField, FieldValue)>,
    record: Map<FilterField, FieldValue>,
) -> bool {
    forall|i: int|
        0 <= i < clauses.len() ==> record.contains_key((#[trigger] clauses[i]).0) && record[clauses[i].0]
            == clauses[i].1
}

impl FilterField {
    /// The field's name in a stored record.
    pub fn name(&self) -> (r: &'static str)
        ensures
            r@ == match self {
                FilterField::Name => "name"@,
                FilterField::Model => "model"@,
                FilterField::Temperature => "temperature"@,
            },
    {
        match self {
            FilterField::Name => "name",
            FilterField::Model => "model",
            FilterField::Temperature => "temperature",
        }
    }
}

/// Builds the filter for a list: an equality clause for each input that is
/// present, none for one that is absent.
pub fn build_filter(name: Option<String>, model: Option<String>, temperature: Option<Number>) -> (r:
    Filter)
    ensures
        r@ == filter_clauses(name, model, temperature),
{
    let mut clauses: Vec<Clause> = Vec::new();
    if let Some(text) = name {
        clauses.push(Clause { field: FilterField::Name, value: FilterValue::Text(text) });
    }
    if let Some(text) = model {
        clauses.push(Clause { field: FilterField::Model, value: FilterValue::Text(text) });
    }
    if let Some(number) = temperature {
        clauses.push(Clause { field: FilterField::Temperature, value: FilterValue::Number(number) });
    }
    let filter = Filter { clauses };
    proof {
        assert(filter@ =~= filter_clauses(name, model, temperature));
    }
    filter
}

/// A record meets the filter exactly when it has the given value in each
/// field for which one was given; the clauses combine with "and", and an
/// absent input constrains nothing.
pub proof fn lemma_filter_composition(
    name: Option<String>,
    model: Option<String>,
    temperature: Option<Number>,
    record: Map<FilterField, FieldValue>,
)
    ensures
        matches(filter_clauses(name, model, temperature), record) <==> {
            &&& name matches Some(text) ==> record.contains_key(FilterField::Name)
                && record[FilterField::Name] == FieldValue::Text(text@)
            &&& model matches Some(text) ==> record.contains_key(FilterField::Model)
                && record[FilterField::Model] == FieldValue::Text(text@)
            &&& temperature matches Some(number) ==> record.contains_key(FilterField::Temperature)
                && record[FilterField::Temperature] == FieldValue::Number(number.bits)
        },
{
    let clauses = filter_clauses(name, model, temperature);
    let first = text_clause(FilterField::Name, name);
    let second = text_clause(FilterField::Model, model);
    let third = number_clause(FilterField::Temperature, temperature);
    if matches(clauses, record) {
        if name.is_some() {
            assert(clauses[0] == first[0]);
        }
        if model.is_some() {
            assert(clauses[first.len() as int] == second[0]);
        }
        if temperature.is_some() {
            assert(clauses[(first.len() + second.len()) as int] == third[0]);
        }
    }
}

/// With no input present the filter has no clause, and every record meets
/// it.
pub proof fn lemma_empty_filter_matches_all(record: Map<FilterField, FieldValue>)
    ensures
        filter_clauses(None, None, None).len() == 0,
        matches(filter_clauses(None, None, None), record),
{
}

} // verus!
