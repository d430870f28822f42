//! Importing examinees from the rows of a spreadsheet.
//!
//! Every row names one examinee and one subject the examinee sits. Rows
//! that share an identifier describe the same examinee and must agree on
//! every personal detail.

use super::text::{
    display_i16, displayed_i16, distinct, lemma_position, lemma_position_is, parse_i16,
    parsed_i16, position, same_text, trim, trimmed,
};
use crate::ctx::{centre_names, ApplicationState};
use crate::models::examinee::{ExamineeForCreate, ExamineeForCreateView};
use crate::models::subject::{subject_kind_named, ImportedSubject, SubjectKind};
use crate::models::EntityId;
use vstd::prelude::*;

verus! {

/// The cells of one sheet of a workbook, row by row.
#[derive(Debug, PartialEq, Eq, Clone)]
pub struct SheetData {
    pub name: String,
    pub values: Vec<Vec<String>>,
}

/// Which sheet to import and where its columns are.
#[derive(Debug, PartialEq, Eq, Clone)]
pub struct ExamineeImportSettings {
    pub selected_sheet: String,
    pub first_row_is_header: bool,
    pub group_rows_by_column: usize,
    pub court_column: usize,
    pub subject_name_column: usize,
    pub surenames_column: usize,
    pub name_column: usize,
    pub nif_column: usize,
    pub subject_kind_column: usize,
    pub origin_column: usize,
    pub academic_centre_column: usize,
}

/// How many records an import has added.
#[derive(Debug, PartialEq, Eq, Clone, Copy, Structural)]
pub struct ExamineeImportResult {
    pub imported_examinees: usize,
    pub imported_subjects: usize,
    pub imported_academic_centres: usize,
}

/// The columns an import reads.
#[derive(Debug, PartialEq, Eq, Clone, Copy, Structural)]
pub enum ExamineeImportColumn {
    SubjectName,
    RowIdentifier,
    ExamineeNif,
    ExamineeName,
    ExamineeSurenames,
    ExamineeOrigin,
    ExamineeCourt,
    ExamineeAcademicCentre,
}

/// Why the text of a cell is not a value of its column.
#[derive(Debug, PartialEq, Eq, Clone, Copy, Structural)]
pub enum ExamineeImportInvalidValueError {
    CourtIsNotNumber,
}

/// An examinee as the rows read so far describe it.
#[derive(Debug, PartialEq, Eq, Clone)]
pub struct ExamineeForImport {
    pub identifier: String,
    pub nif: Option<String>,
    pub name: Option<String>,
    pub surenames: Option<String>,
    pub origin: Option<String>,
    pub court: Option<i16>,
    pub academic_centre: Option<String>,
    /// The subjects the examinee sits, in the order of their first
    /// mention, each listed once.
    pub subjects: Vec<String>,
}

/// Why an import stopped.
#[allow(inconsistent_fields)]
#[derive(Debug, PartialEq, Eq, Clone)]
pub enum ExamineeImportError {
    Lock,
    NoValuesLoaded,
    NoSheet,
    MissingValue { row: usize, missing: ExamineeImportColumn },
    MissmatchValue {
        row: usize,
        identifier: String,
        missmatch: ExamineeImportColumn,
        established_value: String,
        found_value: String,
    },
    InvalidValue { row: usize, reason: ExamineeImportInvalidValueError, invalid_value: String },
    MissingExamineeValue {
        examinee: ExamineeForImport,
        identifier: String,
        missing: ExamineeImportColumn,
    },
}

/// What an `ExamineeForImport` holds, as plain text.
pub struct ExamineeForImportView {
    pub identifier: Seq<char>,
    pub nif: Option<Seq<char>>,
    pub name: Option<Seq<char>>,
    pub surenames: Option<Seq<char>>,
    pub origin: Option<Seq<char>>,
    pub court: Option<i16>,
    pub academic_centre: Option<Seq<char>>,
    pub subjects: Seq<Seq<char>>,
}

impl View for ExamineeForImport {
    type V = ExamineeForImportView;

    open spec fn view(&self) -> ExamineeForImportView {
        ExamineeForImportView {
            identifier: self.identifier@,
            nif: self.nif.deep_view(),
            name: self.name.deep_view(),
            surenames: self.surenames.deep_view(),
            origin: self.origin.deep_view(),
            court: self.court,
            academic_centre: self.academic_centre.deep_view(),
            subjects: self.subjects.deep_view(),
        }
    }
}

/// What an `ExamineeImportError` holds, as plain text.
#[allow(inconsistent_fields)]
pub enum ExamineeImportErrorView {
    Lock,
    NoValuesLoaded,
    NoSheet,
    MissingValue { row: usize, missing: ExamineeImportColumn },
    MissmatchValue {
        row: usize,
        identifier: Seq<char>,
        missmatch: ExamineeImportColumn,
        established_value: Seq<char>,
        found_value: Seq<char>,
    },
    InvalidValue { row: usize, reason: ExamineeImportInvalidValueError, invalid_value: Seq<char> },
    MissingExamineeValue {
        examinee: ExamineeForImportView,
        identifier: Seq<char>,
        missing: ExamineeImportColumn,
    },
}

impl View for ExamineeImportError {
    type V = ExamineeImportErrorView;

    open spec fn view(&self) -> ExamineeImportErrorView {
        match *self {
            ExamineeImportError::Lock => ExamineeImportErrorView::Lock,
            ExamineeImportError::NoValuesLoaded => ExamineeImportErrorView::NoValuesLoaded,
            ExamineeImportError::NoSheet => ExamineeImportErrorView::NoSheet,
            ExamineeImportError::MissingValue { row, missing } => {
                ExamineeImportErrorView::MissingValue { row, missing }
            },
            ExamineeImportError::MissmatchValue {
                row,
                identifier,
                missmatch,
                established_value,
                found_value,
            } => ExamineeImportErrorView::MissmatchValue {
                row,
                identifier: identifier@,
                missmatch,
                established_value: established_value@,
                found_value: found_value@,
            },
            ExamineeImportError::InvalidValue { row, reason, invalid_value } => {
                ExamineeImportErrorView::InvalidValue { row, reason, invalid_value: invalid_value@ }
            },
            ExamineeImportError::MissingExamineeValue { examinee, identifier, missing } => {
                ExamineeImportErrorView::MissingExamineeValue {
                    examinee: examinee@,
                    identifier: identifier@,
                    missing,
                }
            },
        }
    }
}

/// The personal details that one row gives.
pub struct ExamineeRowValues<'a> {
    pub nif: &'a String,
    pub name: &'a String,
    pub surenames: String,
    pub origin: &'a String,
    pub court: i16,
    pub identifier: &'a String,
}

/// What an `ExamineeRowValues` holds, as plain text.
pub struct ExamineeRowValuesView {
    pub nif: Seq<char>,
    pub name: Seq<char>,
    pub surenames: Seq<char>,
    pub origin: Seq<char>,
    pub court: i16,
    pub identifier: Seq<char>,
}

impl<'a> View for ExamineeRowValues<'a> {
    type V = ExamineeRowValuesView;

    open spec fn view(&self) -> ExamineeRowValuesView {
        ExamineeRowValuesView {
            nif: self.nif@,
            name: self.name@,
            surenames: self.surenames@,
            origin: self.origin@,
            court: self.court,
            identifier: self.identifier@,
        }
    }
}

/// The text of the cell in `column`, where the row has that column and
/// the cell is not empty.
pub open spec fn filled_cell(row: Seq<Seq<char>>, column: usize) -> Option<Seq<char>> {
    if column < row.len() && row[column as int].len() > 0 {
        Some(row[column as int])
    } else {
        None
    }
}

/// The text of the cell in `column` without the white space around it,
/// where the row has that column and something is left of the cell.
pub open spec fn trimmed_cell(row: Seq<Seq<char>>, column: usize) -> Option<Seq<char>> {
    if column < row.len() && trimmed(row[column as int]).len() > 0 {
        Some(trimmed(row[column as int]))
    } else {
        None
    }
}

/// The error of row `row` that has nothing in the column `missing`.
pub open spec fn missing_value(row: usize, missing: ExamineeImportColumn) -> ExamineeImportErrorView {
    ExamineeImportErrorView::MissingValue { row, missing }
}

/// The personal details that the row at `index` gives, or the first
/// column that stops it, in the order identifier, NIF, name, origin,
/// court. A row without a surnames column has an empty surname.
pub open spec fn row_values(
    row: Seq<Seq<char>>,
    index: usize,
    settings: ExamineeImportSettings,
) -> Result<ExamineeRowValuesView, ExamineeImportErrorView> {
    let identifier = filled_cell(row, settings.group_rows_by_column);
    let nif = filled_cell(row, settings.nif_column);
    let name = filled_cell(row, settings.name_column);
    let origin = filled_cell(row, settings.origin_column);
    let court = filled_cell(row, settings.court_column);
    if identifier is None {
        Err(missing_value(index, ExamineeImportColumn::RowIdentifier))
    } else if nif is None {
        Err(missing_value(index, ExamineeImportColumn::ExamineeNif))
    } else if name is None {
        Err(missing_value(index, ExamineeImportColumn::ExamineeName))
    } else if origin is None {
        Err(missing_value(index, ExamineeImportColumn::ExamineeOrigin))
    } else if court is None {
        Err(missing_value(index, ExamineeImportColumn::ExamineeCourt))
    } else {
        match parsed_i16(court->0) {
            None => Err(
                ExamineeImportErrorView::InvalidValue {
                    row: index,
                    reason: ExamineeImportInvalidValueError::CourtIsNotNumber,
                    invalid_value: court->0,
                },
            ),
            Some(number) => Ok(
                ExamineeRowValuesView {
                    nif: nif->0,
                    name: name->0,
                    surenames: if settings.surenames_column < row.len() {
                        row[settings.surenames_column as int]
                    } else {
                        Seq::empty()
                    },
                    origin: origin->0,
                    court: number,
                    identifier: identifier->0,
                },
            ),
        }
    }
}

/// The cell in `column`, where the row has that column and the cell is
/// not empty.
fn filled<'a>(row: &'a Vec<String>, column: usize) -> (cell: Option<&'a String>)
    ensures
        cell.deep_view() == filled_cell(row.deep_view(), column),
        cell matches Some(text) ==> column < row.len() && *text == row[column as int],
{
    if column < row.len() && !row[column].as_str().is_empty() {
        Some(&row[column])
    } else {
        None
    }
}

/// Reads the personal details of an examinee from the row at `index`.
pub fn extract_examinee_values_from_row<'a>(
    row: &'a Vec<String>,
    index: usize,
    settings: &ExamineeImportSettings,
) -> (values: Result<ExamineeRowValues<'a>, ExamineeImportError>)
    ensures
        match row_values(row.deep_view(), index, *settings) {
            Ok(expected) => values matches Ok(got) && got@ == expected,
            Err(expected) => values matches Err(got) && got@ == expected,
        },
{
    let identifier = match filled(row, settings.group_rows_by_column) {
        Some(identifier) => identifier,
        None => {
            return Err(
                ExamineeImportError::MissingValue {
                    row: index,
                    missing: ExamineeImportColumn::RowIdentifier,
                },
            );
        },
    };
    let nif = match filled(row, settings.nif_column) {
        Some(nif) => nif,
        None => {
            return Err(
                ExamineeImportError::MissingValue {
                    row: index,
                    missing: ExamineeImportColumn::ExamineeNif,
                },
            );
        },
    };
    let name = match filled(row, settings.name_column) {
        Some(name) => name,
        None => {
            return Err(
                ExamineeImportError::MissingValue {
                    row: index,
                    missing: ExamineeImportColumn::ExamineeName,
                },
            );
        },
    };
    let surenames = if settings.surenames_column < row.len() {
        row[settings.surenames_column].clone()
    } else {
        String::new()
    };
    let origin = match filled(row, settings.origin_column) {
        Some(origin) => origin,
        None => {
            return Err(
                ExamineeImportError::MissingValue {
                    row: index,
                    missing: ExamineeImportColumn::ExamineeOrigin,
                },
            );
        },
    };
    let court_text = match filled(row, settings.court_column) {
        Some(court_text) => court_text,
        None => {
            return Err(
                ExamineeImportError::MissingValue {
                    row: index,
                    missing: ExamineeImportColumn::ExamineeCourt,
                },
            );
        },
    };
    let court = match parse_i16(court_text.as_str()) {
        Some(court) => court,
        None => {
            return Err(
                ExamineeImportError::InvalidValue {
                    row: index,
                    invalid_value: court_text.clone(),
                    reason: ExamineeImportInvalidValueError::CourtIsNotNumber,
                },
            );
        },
    };
    Ok(ExamineeRowValues { identifier, nif, name, surenames, origin, court })
}

/// The names and kinds of the subjects met so far.
pub open spec fn subjects_view(subjects: Seq<ImportedSubject>) -> Seq<(Seq<char>, SubjectKind)> {
    Seq::new(subjects.len(), |i: int| (subjects[i].name@, subjects[i].kind))
}

/// The names of the subjects met so far.
pub open spec fn subject_names(subjects: Seq<(Seq<char>, SubjectKind)>) -> Seq<Seq<char>> {
    Seq::new(subjects.len(), |i: int| subjects[i].0)
}

/// The kind that a row gives its subject: the one its kind column names,
/// or `UNKNOWN` where the row has no such column.
pub open spec fn kind_in_row(row: Seq<Seq<char>>, settings: ExamineeImportSettings) -> SubjectKind {
    if settings.subject_kind_column < row.len() {
        subject_kind_named(trimmed(row[settings.subject_kind_column as int]))
    } else {
        SubjectKind::UNKNOWN
    }
}

/// The subjects after a row has named `name` with `kind`: a subject that
/// is new is added at the end, one whose kind was unknown takes `kind`,
/// and one whose kind was known keeps it.
pub open spec fn subjects_after(
    subjects: Seq<(Seq<char>, SubjectKind)>,
    name: Seq<char>,
    kind: SubjectKind,
) -> Seq<(Seq<char>, SubjectKind)> {
    let at = position(subject_names(subjects), name);
    if at >= subjects.len() {
        subjects.push((name, kind))
    } else if subjects[at].1 == SubjectKind::UNKNOWN {
        subjects.update(at, (name, kind))
    } else {
        subjects
    }
}

/// Finds the first subject called `name`.
fn find_subject(subjects: &Vec<ImportedSubject>, name: &str) -> (at: usize)
    ensures
        at == position(subject_names(subjects_view(subjects@)), name@),
        at <= subjects.len(),
{
    let ghost names = subject_names(subjects_view(subjects@));
    let mut i: usize = 0;
    while i < subjects.len()
        invariant
            i <= subjects.len(),
            names == subject_names(subjects_view(subjects@)),
            forall|k: int| 0 <= k < i ==> names[k] != name@,
        decreases subjects.len() - i,
    {
        if same_text(subjects[i].name.as_str(), name) {
            proof {
                lemma_position_is(names, name@, i as int);
            }
            return i;
        }
        i = i + 1;
    }
    proof {
        lemma_position_is(names, name@, i as int);
    }
    i
}

/// Records the subject that the row at `index` names, and returns its
/// name.
pub fn update_subjects_list(
    subjects: &mut Vec<ImportedSubject>,
    row: &Vec<String>,
    index: usize,
    settings: &ExamineeImportSettings,
) -> (named: Result<String, ExamineeImportError>)
    ensures
        match trimmed_cell(row.deep_view(), settings.subject_name_column) {
            Some(name) => {
                &&& named matches Ok(got) && got@ == name
                &&& subjects_view(final(subjects)@) == subjects_after(
                    subjects_view(old(subjects)@),
                    name,
                    kind_in_row(row.deep_view(), *settings),
                )
            },
            None => {
                &&& named matches Err(got) && got@ == missing_value(
                    index,
                    ExamineeImportColumn::SubjectName,
                )
                &&& *final(subjects) == *old(subjects)
            },
        },
        distinct(subject_names(subjects_view(old(subjects)@))) ==> distinct(
            subject_names(subjects_view(final(subjects)@)),
        ),
{
    proof {
        if distinct(subject_names(subjects_view(subjects@))) {
            match trimmed_cell(row.deep_view(), settings.subject_name_column) {
                Some(name) => {
                    lemma_subjects_after_distinct(
                        subjects_view(subjects@),
                        name,
                        kind_in_row(row.deep_view(), *settings),
                    );
                },
                None => {},
            }
        }
    }
    if settings.subject_name_column >= row.len() {
        return Err(
            ExamineeImportError::MissingValue {
                row: index,
                missing: ExamineeImportColumn::SubjectName,
            },
        );
    }
    let subject_name = trim(row[settings.subject_name_column].as_str());
    if subject_name.is_empty() {
        return Err(
            ExamineeImportError::MissingValue {
                row: index,
                missing: ExamineeImportColumn::SubjectName,
            },
        );
    }
    let ghost before = subjects_view(subjects@);
    let at = find_subject(subjects, subject_name);
    let unknown = if at < subjects.len() {
        match subjects[at].kind {
            SubjectKind::UNKNOWN => true,
            _ => false,
        }
    } else {
        true
    };
    if unknown {
        let subject_kind = if settings.subject_kind_column < row.len() {
            SubjectKind::from(trim(row[settings.subject_kind_column].as_str()))
        } else {
            SubjectKind::UNKNOWN
        };
        let subject = ImportedSubject { name: subject_name.to_owned(), kind: subject_kind };
        if at < subjects.len() {
            subjects[at] = subject;
            assert(subjects_view(subjects@) =~= before.update(
                at as int,
                (subject_name@, subject_kind),
            ));
        } else {
            subjects.push(subject);
            assert(subjects_view(subjects@) =~= before.push((subject_name@, subject_kind)));
        }
    }
    Ok(subject_name.to_owned())
}

/// The academic centres after a row has named `name`: a centre that is
/// new is added at the end.
pub open spec fn centres_after(centres: Seq<Seq<char>>, name: Seq<char>) -> Seq<Seq<char>> {
    if position(centres, name) < centres.len() {
        centres
    } else {
        centres.push(name)
    }
}

/// Whether one of `names` is `name`.
fn holds_name(names: &Vec<String>, name: &str) -> (held: bool)
    ensures
        held == (position(names.deep_view(), name@) < names.len()),
{
    let ghost texts = names.deep_view();
    let mut i: usize = 0;
    while i < names.len()
        invariant
            i <= names.len(),
            texts == names.deep_view(),
            forall|k: int| 0 <= k < i ==> texts[k] != name@,
        decreases names.len() - i,
    {
        if same_text(names[i].as_str(), name) {
            proof {
                lemma_position_is(texts, name@, i as int);
            }
            return true;
        }
        i = i + 1;
    }
    proof {
        lemma_position_is(texts, name@, i as int);
    }
    false
}

/// Records the academic centre that the row names, if it names one, and
/// returns its name.
pub fn update_academic_centres_list(
    academic_centres: &mut Vec<String>,
    row: &Vec<String>,
    settings: &ExamineeImportSettings,
) -> (named: Option<String>)
    ensures
        named.deep_view() == trimmed_cell(row.deep_view(), settings.academic_centre_column),
        final(academic_centres).deep_view() == match trimmed_cell(
            row.deep_view(),
            settings.academic_centre_column,
        ) {
            Some(name) => centres_after(old(academic_centres).deep_view(), name),
            None => old(academic_centres).deep_view(),
        },
        distinct(old(academic_centres).deep_view()) ==> distinct(
            final(academic_centres).deep_view(),
        ),
{
    proof {
        if distinct(academic_centres.deep_view()) {
            match trimmed_cell(row.deep_view(), settings.academic_centre_column) {
                Some(name) => {
                    lemma_centres_after_distinct(academic_centres.deep_view(), name);
                },
                None => {},
            }
        }
    }
    if settings.academic_centre_column >= row.len() {
        return None;
    }
    let academic_centre_name = trim(row[settings.academic_centre_column].as_str());
    if academic_centre_name.is_empty() {
        return None;
    }
    let ghost before = academic_centres.deep_view();
    if !holds_name(academic_centres, academic_centre_name) {
        academic_centres.push(academic_centre_name.to_owned());
        assert(academic_centres.deep_view() =~= before.push(academic_centre_name@));
    }
    Some(academic_centre_name.to_owned())
}

/// The value a detail has once a row has been read: the one that was
/// established before, or the one the row gives where none was.
pub open spec fn settled<T>(established: Option<T>, found: T) -> Option<T> {
    match established {
        Some(value) => Some(value),
        None => Some(found),
    }
}

/// Whether a row agrees with what was established before it.
pub open spec fn agrees<T>(established: Option<T>, found: T) -> bool {
    match established {
        Some(value) => value == found,
        None => true,
    }
}

/// The error of a row whose value in `column` is not the one an earlier
/// row established for the same examinee.
pub open spec fn missmatch_value(
    row: usize,
    identifier: Seq<char>,
    column: ExamineeImportColumn,
    established: Seq<char>,
    found: Seq<char>,
) -> ExamineeImportErrorView {
    ExamineeImportErrorView::MissmatchValue {
        row,
        identifier,
        missmatch: column,
        established_value: established,
        found_value: found,
    }
}

/// What a row makes of an examinee, and whether it was accepted.
///
/// The details are taken in the order NIF, name, surnames, origin, court,
/// academic centre. Each one is established by the first row that gives
/// it, and the first one that a later row contradicts stops the row. The
/// details before it stay as the row left them. A row that is accepted
/// adds its subject, unless the examinee has it.
pub open spec fn examinee_checked(
    examinee: ExamineeForImportView,
    values: ExamineeRowValuesView,
    subject: Seq<char>,
    centre: Option<Seq<char>>,
    index: usize,
) -> (ExamineeForImportView, Result<(), ExamineeImportErrorView>) {
    let with_nif = ExamineeForImportView { nif: settled(examinee.nif, values.nif), ..examinee };
    let with_name = ExamineeForImportView {
        name: settled(examinee.name, values.name),
        ..with_nif
    };
    let with_surenames = ExamineeForImportView {
        surenames: settled(examinee.surenames, values.surenames),
        ..with_name
    };
    let with_origin = ExamineeForImportView {
        origin: settled(examinee.origin, values.origin),
        ..with_surenames
    };
    let with_court = ExamineeForImportView {
        court: settled(examinee.court, values.court),
        ..with_origin
    };
    let with_centre = match centre {
        Some(name) => ExamineeForImportView {
            academic_centre: settled(examinee.academic_centre, name),
            ..with_court
        },
        None => with_court,
    };
    if !agrees(examinee.nif, values.nif) {
        (
            with_nif,
            Err(
                missmatch_value(
                    index,
                    values.identifier,
                    ExamineeImportColumn::ExamineeNif,
                    examinee.nif->0,
                    values.nif,
                ),
            ),
        )
    } else if !agrees(examinee.name, values.name) {
        (
            with_name,
            Err(
                missmatch_value(
                    index,
                    values.identifier,
                    ExamineeImportColumn::ExamineeName,
                    examinee.name->0,
                    values.name,
                ),
            ),
        )
    } else if !agrees(examinee.surenames, values.surenames) {
        (
            with_surenames,
            Err(
                missmatch_value(
                    index,
                    values.identifier,
                    ExamineeImportColumn::ExamineeSurenames,
                    examinee.surenames->0,
                    values.surenames,
                ),
            ),
        )
    } else if !agrees(examinee.origin, values.origin) {
        (
            with_origin,
            Err(
                missmatch_value(
                    index,
                    values.identifier,
                    ExamineeImportColumn::ExamineeOrigin,
                    examinee.origin->0,
                    values.origin,
                ),
            ),
        )
    } else if !agrees(examinee.court, values.court) {
        (
            with_court,
            Err(
                missmatch_value(
                    index,
                    values.identifier,
                    ExamineeImportColumn::ExamineeCourt,
                    displayed_i16(examinee.court->0),
                    displayed_i16(values.court),
                ),
            ),
        )
    } else if centre is Some && !agrees(examinee.academic_centre, centre->0) {
        (
            with_centre,
            Err(
                missmatch_value(
                    index,
                    values.identifier,
                    ExamineeImportColumn::ExamineeAcademicCentre,
                    examinee.academic_centre->0,
                    centre->0,
                ),
            ),
        )
    } else {
        (
            ExamineeForImportView {
                subjects: centres_after(examinee.subjects, subject),
                ..with_centre
            },
            Ok(()),
        )
    }
}

/// Establishes a detail from a row, or finds that the row contradicts it.
/// The value that was established is returned where the row contradicts
/// it.
fn settle(established: &mut Option<String>, found: &String) -> (contradicted: Option<String>)
    ensures
        final(established).deep_view() == settled(old(established).deep_view(), found@),
        contradicted is None <==> agrees(old(established).deep_view(), found@),
        contradicted matches Some(value) ==> Some(value@) == old(established).deep_view(),
{
    match established {
        Some(value) => {
            if *value == *found {
                None
            } else {
                Some(value.clone())
            }
        },
        None => {
            *established = Some(found.clone());
            None
        },
    }
}

/// Merges the details of one row into the examinee the row belongs to.
pub fn check_and_update_examinee(
    row_examinee: &mut ExamineeForImport,
    row_values: ExamineeRowValues,
    row_subject: &str,
    row_academic_centre: &Option<String>,
    index: usize,
) -> (checked: Result<(), ExamineeImportError>)
    ensures
        final(row_examinee)@ == examinee_checked(
            old(row_examinee)@,
            row_values@,
            row_subject@,
            row_academic_centre.deep_view(),
            index,
        ).0,
        match examinee_checked(
            old(row_examinee)@,
            row_values@,
            row_subject@,
            row_academic_centre.deep_view(),
            index,
        ).1 {
            Ok(_) => checked is Ok,
            Err(expected) => checked matches Err(got) && got@ == expected,
        },
{
    if let Some(established_value) = settle(&mut row_examinee.nif, row_values.nif) {
        return Err(
            ExamineeImportError::MissmatchValue {
                row: index,
                identifier: row_values.identifier.clone(),
                missmatch: ExamineeImportColumn::ExamineeNif,
                established_value,
                found_value: row_values.nif.clone(),
            },
        );
    }
    if let Some(established_value) = settle(&mut row_examinee.name, row_values.name) {
        return Err(
            ExamineeImportError::MissmatchValue {
                row: index,
                identifier: row_values.identifier.clone(),
                missmatch: ExamineeImportColumn::ExamineeName,
                established_value,
                found_value: row_values.name.clone(),
            },
        );
    }
    if let Some(established_value) = settle(&mut row_examinee.surenames, &row_values.surenames) {
        return Err(
            ExamineeImportError::MissmatchValue {
                row: index,
                identifier: row_values.identifier.clone(),
                missmatch: ExamineeImportColumn::ExamineeSurenames,
                established_value,
                found_value: row_values.surenames.clone(),
            },
        );
    }
    if let Some(established_value) = settle(&mut row_examinee.origin, row_values.origin) {
        return Err(
            ExamineeImportError::MissmatchValue {
                row: index,
                identifier: row_values.identifier.clone(),
                missmatch: ExamineeImportColumn::ExamineeOrigin,
                established_value,
                found_value: row_values.origin.clone(),
            },
        );
    }
    match row_examinee.court {
        Some(established) => {
            if established != row_values.court {
                return Err(
                    ExamineeImportError::MissmatchValue {
                        row: index,
                        identifier: row_values.identifier.clone(),
                        missmatch: ExamineeImportColumn::ExamineeCourt,
                        established_value: display_i16(established),
                        found_value: display_i16(row_values.court),
                    },
                );
            }
        },
        None => {
            row_examinee.court = Some(row_values.court);
        },
    }
    if let Some(centre) = row_academic_centre {
        if let Some(established_value) = settle(&mut row_examinee.academic_centre, centre) {
            return Err(
                ExamineeImportError::MissmatchValue {
                    row: index,
                    identifier: row_values.identifier.clone(),
                    missmatch: ExamineeImportColumn::ExamineeAcademicCentre,
                    established_value,
                    found_value: centre.clone(),
                },
            );
        }
    }
    let ghost before = row_examinee.subjects.deep_view();
    if !holds_name(&row_examinee.subjects, row_subject) {
        row_examinee.subjects.push(row_subject.to_owned());
        assert(row_examinee.subjects.deep_view() =~= before.push(row_subject@));
    }
    Ok(())
}

/// An examinee of whom only the identifier is known.
pub open spec fn fresh_examinee(identifier: Seq<char>) -> ExamineeForImportView {
    ExamineeForImportView {
        identifier,
        nif: None,
        name: None,
        surenames: None,
        origin: None,
        court: None,
        academic_centre: None,
        subjects: Seq::empty(),
    }
}

impl Default for ExamineeForImport {
    fn default() -> (examinee: Self)
        ensures
            examinee@ == fresh_examinee(Seq::empty()),
    {
        let examinee = ExamineeForImport {
            identifier: String::new(),
            nif: None,
            name: None,
            surenames: None,
            origin: None,
            court: None,
            academic_centre: None,
            subjects: Vec::new(),
        };
        assert(examinee.subjects.deep_view() =~= Seq::<Seq<char>>::empty());
        examinee
    }
}

/// What each of the examinees holds.
pub open spec fn examinees_view(examinees: Seq<ExamineeForImport>) -> Seq<ExamineeForImportView> {
    Seq::new(examinees.len(), |i: int| examinees[i]@)
}

/// The identifiers of the examinees, in their order.
pub open spec fn identifiers(examinees: Seq<ExamineeForImportView>) -> Seq<Seq<char>> {
    Seq::new(examinees.len(), |i: int| examinees[i].identifier)
}

/// What a row makes of the examinees read so far, and whether it was
/// accepted. A row that lacks a personal detail changes nothing. Any other
/// row is merged into the examinee with its identifier, who is added at
/// the end when the identifier is new.
pub open spec fn examinees_after(
    examinees: Seq<ExamineeForImportView>,
    row: Seq<Seq<char>>,
    index: usize,
    settings: ExamineeImportSettings,
    subject: Seq<char>,
    centre: Option<Seq<char>>,
) -> (Seq<ExamineeForImportView>, Result<(), ExamineeImportErrorView>) {
    match row_values(row, index, settings) {
        Err(e) => (examinees, Err(e)),
        Ok(values) => {
            let at = position(identifiers(examinees), values.identifier);
            let listed = if at < examinees.len() {
                examinees
            } else {
                examinees.push(fresh_examinee(values.identifier))
            };
            let checked = examinee_checked(listed[at], values, subject, centre, index);
            (listed.update(at, checked.0), checked.1)
        },
    }
}

/// Finds the first examinee with the given identifier.
fn find_examinee(examinees: &Vec<ExamineeForImport>, identifier: &str) -> (at: usize)
    ensures
        at == position(identifiers(examinees_view(examinees@)), identifier@),
        at <= examinees.len(),
{
    let ghost names = identifiers(examinees_view(examinees@));
    let mut i: usize = 0;
    while i < examinees.len()
        invariant
            i <= examinees.len(),
            names == identifiers(examinees_view(examinees@)),
            forall|k: int| 0 <= k < i ==> names[k] != identifier@,
        decreases examinees.len() - i,
    {
        if same_text(examinees[i].identifier.as_str(), identifier) {
            proof {
                lemma_position_is(names, identifier@, i as int);
            }
            return i;
        }
        i = i + 1;
    }
    proof {
        lemma_position_is(names, identifier@, i as int);
    }
    i
}

/// Merges the row at `index` into the examinee it belongs to, whom it
/// adds when the identifier is new.
pub fn update_examinee_list(
    examinees: &mut Vec<ExamineeForImport>,
    row_academic_centre: &Option<String>,
    row_subject: &str,
    row: &Vec<String>,
    index: usize,
    settings: &ExamineeImportSettings,
) -> (updated: Result<(), ExamineeImportError>)
    ensures
        examinees_view(final(examinees)@) == examinees_after(
            examinees_view(old(examinees)@),
            row.deep_view(),
            index,
            *settings,
            row_subject@,
            row_academic_centre.deep_view(),
        ).0,
        match examinees_after(
            examinees_view(old(examinees)@),
            row.deep_view(),
            index,
            *settings,
            row_subject@,
            row_academic_centre.deep_view(),
        ).1 {
            Ok(_) => updated is Ok,
            Err(expected) => updated matches Err(got) && got@ == expected,
        },
{
    let ghost before = examinees_view(examinees@);
    let row_values = extract_examinee_values_from_row(row, index, settings)?;
    let at = find_examinee(examinees, row_values.identifier.as_str());
    if at == examinees.len() {
        let mut examinee = ExamineeForImport::default();
        examinee.identifier = row_values.identifier.clone();
        examinees.push(examinee);
        assert(examinees_view(examinees@) =~= before.push(fresh_examinee(row_values.identifier@)));
    }
    let ghost listed = examinees_view(examinees@);
    let updated = check_and_update_examinee(
        &mut examinees[at],
        row_values,
        row_subject,
        row_academic_centre,
        index,
    );
    assert(examinees_view(examinees@) =~= listed.update(at as int, examinees@[at as int]@));
    updated
}

/// The first personal detail that an examinee cannot be added without
/// and that no row has given: NIF, name, origin or court.
pub open spec fn first_missing(examinee: ExamineeForImportView) -> Option<ExamineeImportColumn> {
    if examinee.nif is None {
        Some(ExamineeImportColumn::ExamineeNif)
    } else if examinee.name is None {
        Some(ExamineeImportColumn::ExamineeName)
    } else if examinee.origin is None {
        Some(ExamineeImportColumn::ExamineeOrigin)
    } else if examinee.court is None {
        Some(ExamineeImportColumn::ExamineeCourt)
    } else {
        None
    }
}

/// The identifier of the first academic centre called `name`, if a name
/// is given and a centre has it.
pub open spec fn centre_id(name: Option<Seq<char>>, state: ApplicationState) -> Option<EntityId> {
    match name {
        None => None,
        Some(name) => {
            let at = position(centre_names(state.academic_centres()), name);
            if at < state.academic_centres().len() {
                Some(state.academic_centres()[at].id)
            } else {
                None
            }
        },
    }
}

/// What is needed to add an examinee whose rows have all been read, or
/// the first detail that is missing. An examinee without surnames gets an
/// empty one, and one whose academic centre is not held by `state` gets
/// none.
pub open spec fn created(examinee: ExamineeForImportView, state: ApplicationState) -> Result<
    ExamineeForCreateView,
    ExamineeImportErrorView,
> {
    match first_missing(examinee) {
        Some(missing) => Err(
            ExamineeImportErrorView::MissingExamineeValue {
                examinee,
                identifier: examinee.identifier,
                missing,
            },
        ),
        None => Ok(
            ExamineeForCreateView {
                nif: examinee.nif->0,
                name: examinee.name->0,
                surenames: match examinee.surenames {
                    Some(surenames) => surenames,
                    None => Seq::empty(),
                },
                origin: examinee.origin->0,
                court: examinee.court->0,
                academic_centre_id: centre_id(examinee.academic_centre, state),
            },
        ),
    }
}

/// What is needed to add each of the examinees, in their order, or the
/// error of the first one that lacks a detail.
pub open spec fn all_created(examinees: Seq<ExamineeForImportView>, state: ApplicationState) -> Result<
    Seq<ExamineeForCreateView>,
    ExamineeImportErrorView,
>
    decreases examinees.len(),
{
    if examinees.len() == 0 {
        Ok(Seq::empty())
    } else {
        match all_created(examinees.drop_last(), state) {
            Err(e) => Err(e),
            Ok(done) => match created(examinees.last(), state) {
                Err(e) => Err(e),
                Ok(values) => Ok(done.push(values)),
            },
        }
    }
}

/// What each of the creation records holds.
pub open spec fn created_view(records: Seq<ExamineeForCreate>) -> Seq<ExamineeForCreateView> {
    Seq::new(records.len(), |i: int| records[i]@)
}

impl ExamineeForImport {
    /// Turns an examinee whose rows have all been read into what is needed
    /// to add it. An examinee without surnames gets an empty one, and one
    /// whose academic centre is not held by `state` gets none.
    pub fn into_create(self, state: &ApplicationState) -> (record: Result<
        ExamineeForCreate,
        ExamineeImportError,
    >)
        ensures
            match created(self@, *state) {
                Ok(expected) => record matches Ok(values) && values@ == expected,
                Err(expected) => record matches Err(got) && got@ == expected,
            },
    {
        let missing = if self.nif.is_none() {
            Some(ExamineeImportColumn::ExamineeNif)
        } else if self.name.is_none() {
            Some(ExamineeImportColumn::ExamineeName)
        } else if self.origin.is_none() {
            Some(ExamineeImportColumn::ExamineeOrigin)
        } else if self.court.is_none() {
            Some(ExamineeImportColumn::ExamineeCourt)
        } else {
            None
        };
        if let Some(missing) = missing {
            let identifier = self.identifier.clone();
            return Err(
                ExamineeImportError::MissingExamineeValue { examinee: self, identifier, missing },
            );
        }
        let academic_centre_id = match &self.academic_centre {
            Some(name) => match state.get_academic_centre_by_name(name.as_str()) {
                Some(academic_centre) => Some(academic_centre.id),
                None => None,
            },
            None => None,
        };
        let ExamineeForImport { nif, name, surenames, origin, court, .. } = self;
        Ok(
            ExamineeForCreate {
                nif: nif.unwrap(),
                name: name.unwrap(),
                surenames: match surenames {
                    Some(surenames) => surenames,
                    None => String::new(),
                },
                origin: origin.unwrap(),
                court: court.unwrap(),
                academic_centre_id,
            },
        )
    }
}

/// Turns the examinees that an import has gathered into what is needed
/// to add them, in their order. The first one that lacks a detail ends it.
pub fn examinees_for_create(examinees: Vec<ExamineeForImport>, state: &ApplicationState) -> (all:
    Result<Vec<ExamineeForCreate>, ExamineeImportError>)
    ensures
        match all_created(examinees_view(examinees@), *state) {
            Ok(expected) => all matches Ok(records) && created_view(records@) == expected,
            Err(expected) => all matches Err(got) && got@ == expected,
        },
{
    let ghost gathered = examinees_view(examinees@);
    let mut records: Vec<ExamineeForCreate> = Vec::new();
    assert(gathered.take(0) =~= Seq::<ExamineeForImportView>::empty());
    assert(created_view(records@) =~= Seq::<ExamineeForCreateView>::empty());
    for examinee in it: examinees
        invariant
            gathered == examinees_view(examinees@),
            all_created(gathered.take(it.index() as int), *state) == Ok::<
                Seq<ExamineeForCreateView>,
                ExamineeImportErrorView,
            >(created_view(records@)),
    {
        let ghost done = created_view(records@);
        proof {
            let next = gathered.take(it.index() + 1);
            assert(next.drop_last() =~= gathered.take(it.index() as int));
            assert(next.last() == examinee@);
            lemma_all_created_prefix(gathered, it.index() + 1, *state);
        }
        match examinee.into_create(state) {
            Ok(values) => {
                records.push(values);
                assert(created_view(records@) =~= done.push(values@));
            },
            Err(error) => {
                return Err(error);
            },
        }
    }
    assert(gathered.take(gathered.len() as int) =~= gathered);
    Ok(records)
}

/// A prefix that cannot be created stops the whole with the same error.
pub proof fn lemma_all_created_prefix(
    examinees: Seq<ExamineeForImportView>,
    length: int,
    state: ApplicationState,
)
    requires
        0 <= length <= examinees.len(),
    ensures
        all_created(examinees.take(length), state) is Err ==> all_created(examinees, state)
            == all_created(examinees.take(length), state),
    decreases examinees.len() - length,
{
    if length < examinees.len() {
        if all_created(examinees.take(length), state) is Err {
            let next = examinees.take(length + 1);
            assert(next.drop_last() =~= examinees.take(length));
            lemma_all_created_prefix(examinees, length + 1, state);
        }
    } else {
        assert(examinees.take(length) =~= examinees);
    }
}

/// What an import has gathered from the rows read so far.
#[derive(Debug, PartialEq, Eq, Clone)]
pub struct ImportProgress {
    /// The subjects, in the order of their first mention.
    pub subjects: Vec<ImportedSubject>,
    /// The names of the academic centres, in the order of their first
    /// mention.
    pub academic_centres: Vec<String>,
    /// The examinees, in the order of their first mention.
    pub examinees: Vec<ExamineeForImport>,
}

/// What an `ImportProgress` holds, as plain text.
pub struct ImportProgressView {
    pub subjects: Seq<(Seq<char>, SubjectKind)>,
    pub academic_centres: Seq<Seq<char>>,
    pub examinees: Seq<ExamineeForImportView>,
}

impl View for ImportProgress {
    type V = ImportProgressView;

    open spec fn view(&self) -> ImportProgressView {
        ImportProgressView {
            subjects: subjects_view(self.subjects@),
            academic_centres: self.academic_centres.deep_view(),
            examinees: examinees_view(self.examinees@),
        }
    }
}

/// What the row at `index` makes of the progress, and whether it was
/// accepted. A row without a subject changes nothing. Any other row
/// records its subject and its academic centre, also when the examinee is
/// then refused.
pub open spec fn row_imported(
    progress: ImportProgressView,
    row: Seq<Seq<char>>,
    index: usize,
    settings: ExamineeImportSettings,
) -> (ImportProgressView, Result<(), ExamineeImportErrorView>) {
    match trimmed_cell(row, settings.subject_name_column) {
        None => (progress, Err(missing_value(index, ExamineeImportColumn::SubjectName))),
        Some(subject) => {
            let centre = trimmed_cell(row, settings.academic_centre_column);
            let examinees = examinees_after(
                progress.examinees,
                row,
                index,
                settings,
                subject,
                centre,
            );
            (
                ImportProgressView {
                    subjects: subjects_after(
                        progress.subjects,
                        subject,
                        kind_in_row(row, settings),
                    ),
                    academic_centres: match centre {
                        Some(name) => centres_after(progress.academic_centres, name),
                        None => progress.academic_centres,
                    },
                    examinees: examinees.0,
                },
                examinees.1,
            )
        },
    }
}

/// What the rows from `from` on make of the progress: they are read in
/// order, and the first one that is refused ends the import.
pub open spec fn rows_imported(
    progress: ImportProgressView,
    rows: Seq<Seq<Seq<char>>>,
    from: int,
    settings: ExamineeImportSettings,
) -> (ImportProgressView, Result<(), ExamineeImportErrorView>)
    decreases rows.len() - from,
{
    if from < 0 || from >= rows.len() {
        (progress, Ok(()))
    } else {
        let next = row_imported(progress, rows[from], from as usize, settings);
        if next.1 is Err {
            next
        } else {
            rows_imported(next.0, rows, from + 1, settings)
        }
    }
}

/// The index of the first row that holds data.
pub open spec fn first_data_row(settings: ExamineeImportSettings) -> int {
    if settings.first_row_is_header {
        1
    } else {
        0
    }
}

/// Reads one row into the progress of an import.
pub fn import_row(
    progress: &mut ImportProgress,
    row: &Vec<String>,
    index: usize,
    settings: &ExamineeImportSettings,
) -> (imported: Result<(), ExamineeImportError>)
    ensures
        final(progress)@ == row_imported(old(progress)@, row.deep_view(), index, *settings).0,
        match row_imported(old(progress)@, row.deep_view(), index, *settings).1 {
            Ok(_) => imported is Ok,
            Err(expected) => imported matches Err(got) && got@ == expected,
        },
        old(progress)@.wf() ==> final(progress)@.wf(),
{
    proof {
        if progress@.wf() {
            lemma_row_imported_wf(progress@, row.deep_view(), index, *settings);
        }
    }
    let row_subject = update_subjects_list(&mut progress.subjects, row, index, settings)?;
    let row_academic_centre = update_academic_centres_list(
        &mut progress.academic_centres,
        row,
        settings,
    );
    update_examinee_list(
        &mut progress.examinees,
        &row_academic_centre,
        row_subject.as_str(),
        row,
        index,
        settings,
    )
}

/// Reads the rows of a sheet into the progress of an import, from the
/// first row that holds data to the last or to the first that is refused.
pub fn import_rows(
    progress: &mut ImportProgress,
    rows: &Vec<Vec<String>>,
    settings: &ExamineeImportSettings,
) -> (imported: Result<(), ExamineeImportError>)
    ensures
        final(progress)@ == rows_imported(
            old(progress)@,
            rows.deep_view(),
            first_data_row(*settings),
            *settings,
        ).0,
        match rows_imported(
            old(progress)@,
            rows.deep_view(),
            first_data_row(*settings),
            *settings,
        ).1 {
            Ok(_) => imported is Ok,
            Err(expected) => imported matches Err(got) && got@ == expected,
        },
        old(progress)@.wf() ==> final(progress)@.wf(),
{
    proof {
        if progress@.wf() {
            lemma_rows_imported_wf(
                progress@,
                rows.deep_view(),
                first_data_row(*settings),
                *settings,
            );
        }
    }
    let start_index: usize = if settings.first_row_is_header {
        1
    } else {
        0
    };
    let ghost goal = rows_imported(
        progress@,
        rows.deep_view(),
        first_data_row(*settings),
        *settings,
    );
    let mut i: usize = start_index;
    while i < rows.len()
        invariant
            start_index <= i,
            goal == rows_imported(
                old(progress)@,
                rows.deep_view(),
                first_data_row(*settings),
                *settings,
            ),
            rows_imported(progress@, rows.deep_view(), i as int, *settings) == goal,
            old(progress)@.wf() ==> goal.0.wf(),
        decreases rows.len() - i,
    {
        assert(rows.deep_view()[i as int] == rows[i as int].deep_view());
        let imported = import_row(progress, &rows[i], i, settings);
        if imported.is_err() {
            return imported;
        }
        i = i + 1;
    }
    Ok(())
}

/// The names of the sheets, in their order.
pub open spec fn sheet_names(sheets: Seq<SheetData>) -> Seq<Seq<char>> {
    Seq::new(sheets.len(), |i: int| sheets[i].name@)
}

/// Picks the first sheet that has the name the settings select.
pub fn find_sheet<'a>(sheets: &'a Vec<SheetData>, settings: &ExamineeImportSettings) -> (found:
    Result<&'a SheetData, ExamineeImportError>)
    ensures
        ({
            let at = position(sheet_names(sheets@), settings.selected_sheet@);
            if at < sheets.len() {
                found matches Ok(sheet) && *sheet == sheets[at]
            } else {
                found matches Err(ExamineeImportError::NoSheet)
            }
        }),
{
    let ghost names = sheet_names(sheets@);
    let mut i: usize = 0;
    while i < sheets.len()
        invariant
            i <= sheets.len(),
            names == sheet_names(sheets@),
            forall|k: int| 0 <= k < i ==> names[k] != settings.selected_sheet@,
        decreases sheets.len() - i,
    {
        if same_text(sheets[i].name.as_str(), settings.selected_sheet.as_str()) {
            proof {
                lemma_position_is(names, settings.selected_sheet@, i as int);
            }
            return Ok(&sheets[i]);
        }
        i = i + 1;
    }
    proof {
        lemma_position_is(names, settings.selected_sheet@, i as int);
    }
    Err(ExamineeImportError::NoSheet)
}

/// Takes the sheets that an earlier step has loaded, and leaves none
/// behind.
pub fn extract_import_examinees_state(state: &mut Option<Vec<SheetData>>) -> (taken: Result<
    Vec<SheetData>,
    ExamineeImportError,
>)
    ensures
        *final(state) == None::<Vec<SheetData>>,
        match *old(state) {
            Some(sheets) => taken == Ok::<Vec<SheetData>, ExamineeImportError>(sheets),
            None => taken matches Err(ExamineeImportError::NoValuesLoaded),
        },
{
    match state.take() {
        Some(sheets) => Ok(sheets),
        None => Err(ExamineeImportError::NoValuesLoaded),
    }
}

/// `items`, filled up with `filler` to `length` where it is shorter.
pub open spec fn padded<T>(items: Seq<T>, length: int, filler: T) -> Seq<T> {
    if items.len() >= length {
        items
    } else {
        items + Seq::new((length - items.len()) as nat, |i: int| filler)
    }
}

/// A grid of cells after `text` has been put at `row` and `column`: the
/// grid grows to hold the row and the row grows to hold the column, both
/// by empty cells, and the rows above and below keep their length.
pub open spec fn grid_with(
    grid: Seq<Seq<Seq<char>>>,
    row: int,
    column: int,
    text: Seq<char>,
) -> Seq<Seq<Seq<char>>> {
    let tall = padded(grid, row + 1, Seq::<Seq<char>>::empty());
    tall.update(row, padded(tall[row], column + 1, Seq::<char>::empty()).update(column, text))
}

/// The position and the text of each cell.
pub open spec fn cells_view(cells: Seq<(usize, usize, String)>) -> Seq<(usize, usize, Seq<char>)> {
    Seq::new(cells.len(), |i: int| (cells[i].0, cells[i].1, cells[i].2@))
}

/// The grid that cells make when they are put in place one after the
/// other: of two cells at one position the later one stays.
pub open spec fn grid_of(cells: Seq<(usize, usize, Seq<char>)>) -> Seq<Seq<Seq<char>>>
    decreases cells.len(),
{
    if cells.len() == 0 {
        Seq::empty()
    } else {
        let cell = cells.last();
        grid_with(grid_of(cells.drop_last()), cell.0 as int, cell.1 as int, cell.2)
    }
}

/// Puts `text` into the cell at `column`, after filling the row up to it
/// with empty cells.
fn place_in_row(row: &mut Vec<String>, column: usize, text: String)
    requires
        column < usize::MAX,
    ensures
        final(row).deep_view() == padded(
            old(row).deep_view(),
            column + 1,
            Seq::<char>::empty(),
        ).update(column as int, text@),
{
    let ghost before = row.deep_view();
    while row.len() <= column
        invariant
            row.deep_view() == padded(before, row.len() as int, Seq::<char>::empty()),
            row.len() >= before.len(),
            row.len() == before.len() || row.len() <= column + 1,
        decreases column + 1 - row.len(),
    {
        let ghost shorter = row.deep_view();
        row.push(String::new());
        assert(row.deep_view() =~= shorter.push(Seq::<char>::empty()));
        assert(row.deep_view() =~= padded(before, row.len() as int, Seq::<char>::empty()));
    }
    assert(row.deep_view() =~= padded(before, column + 1, Seq::<char>::empty()));
    let ghost wide = row.deep_view();
    row[column] = text;
    assert(row.deep_view() =~= wide.update(column as int, text@));
}

/// Lays the cells of a sheet out as rows of text.
pub fn sheet_values(cells: &Vec<(usize, usize, String)>) -> (values: Vec<Vec<String>>)
    requires
        forall|i: int|
            0 <= i < cells.len() ==> (#[trigger] cells[i]).0 < usize::MAX && cells[i].1
                < usize::MAX,
    ensures
        values.deep_view() == grid_of(cells_view(cells@)),
{
    let mut values: Vec<Vec<String>> = Vec::new();
    let mut i: usize = 0;
    assert(values.deep_view() =~= Seq::<Seq<Seq<char>>>::empty());
    assert(cells_view(cells@).take(0) =~= Seq::<(usize, usize, Seq<char>)>::empty());
    while i < cells.len()
        invariant
            i <= cells.len(),
            forall|k: int|
                0 <= k < cells.len() ==> (#[trigger] cells[k]).0 < usize::MAX && cells[k].1
                    < usize::MAX,
            values.deep_view() == grid_of(cells_view(cells@).take(i as int)),
        decreases cells.len() - i,
    {
        let row: usize = cells[i].0;
        let column: usize = cells[i].1;
        let ghost grid = values.deep_view();
        while values.len() <= row
            invariant
                values.deep_view() == padded(grid, values.len() as int, Seq::<Seq<char>>::empty()),
                values.len() >= grid.len(),
                values.len() == grid.len() || values.len() <= row + 1,
            decreases row + 1 - values.len(),
        {
            let ghost shorter = values.deep_view();
            values.push(Vec::new());
            assert(values[values.len() - 1].deep_view() =~= Seq::<Seq<char>>::empty());
            assert(values.deep_view() =~= shorter.push(Seq::<Seq<char>>::empty()));
            assert(values.deep_view() =~= padded(
                grid,
                values.len() as int,
                Seq::<Seq<char>>::empty(),
            ));
        }
        assert(values.deep_view() =~= padded(grid, row + 1, Seq::<Seq<char>>::empty()));
        let ghost tall = values.deep_view();
        place_in_row(&mut values[row], column, cells[i].2.clone());
        assert(values.deep_view() =~= tall.update(row as int, values[row as int].deep_view()));
        proof {
            let done = cells_view(cells@).take(i + 1);
            assert(done.drop_last() =~= cells_view(cells@).take(i as int));
            assert(done.last() == (row, column, cells[i as int].2@));
        }
        i = i + 1;
    }
    assert(cells_view(cells@).take(i as int) =~= cells_view(cells@));
    values
}

impl ExamineeForImportView {
    /// No subject is listed twice.
    pub open spec fn wf(self) -> bool {
        distinct(self.subjects)
    }
}

impl ImportProgressView {
    /// No subject, no academic centre and no identifier occurs twice, and
    /// no examinee has a subject twice: the lists stand for sets and maps.
    pub open spec fn wf(self) -> bool {
        &&& distinct(subject_names(self.subjects))
        &&& distinct(self.academic_centres)
        &&& distinct(identifiers(self.examinees))
        &&& forall|i: int| 0 <= i < self.examinees.len() ==> (#[trigger] self.examinees[i]).wf()
    }
}

/// Recording a name keeps every name listed once.
pub proof fn lemma_centres_after_distinct(names: Seq<Seq<char>>, name: Seq<char>)
    requires
        distinct(names),
    ensures
        distinct(centres_after(names, name)),
        position(centres_after(names, name), name) < centres_after(names, name).len(),
{
    lemma_position(names, name);
    let after = centres_after(names, name);
    if position(names, name) >= names.len() {
        assert(after[names.len() as int] == name);
    }
    lemma_position(after, name);
    if position(after, name) >= after.len() {
        if position(names, name) < names.len() {
            assert(after[position(names, name)] == name);
        } else {
            assert(after[names.len() as int] == name);
        }
    }
}

/// Recording a subject keeps every subject listed once, and changes no
/// kind that was known.
pub proof fn lemma_subjects_after_distinct(
    subjects: Seq<(Seq<char>, SubjectKind)>,
    name: Seq<char>,
    kind: SubjectKind,
)
    requires
        distinct(subject_names(subjects)),
    ensures
        distinct(subject_names(subjects_after(subjects, name, kind))),
        subjects_after(subjects, name, kind).len() >= subjects.len(),
        forall|i: int|
            0 <= i < subjects.len() ==> (#[trigger] subjects_after(subjects, name, kind)[i]).0
                == subjects[i].0 && (subjects[i].1 != SubjectKind::UNKNOWN ==> subjects_after(
                subjects,
                name,
                kind,
            )[i] == subjects[i]),
{
    let names = subject_names(subjects);
    lemma_position(names, name);
    let after = subjects_after(subjects, name, kind);
    let at = position(names, name);
    if at >= subjects.len() {
        assert(subject_names(after) =~= names.push(name));
    } else {
        assert(names[at] == name);
        assert(subject_names(after) =~= names);
    }
}

/// Merging a row into an examinee keeps the identifier, and keeps every
/// subject listed once.
pub proof fn lemma_examinee_checked_wf(
    examinee: ExamineeForImportView,
    values: ExamineeRowValuesView,
    subject: Seq<char>,
    centre: Option<Seq<char>>,
    index: usize,
)
    requires
        examinee.wf(),
    ensures
        examinee_checked(examinee, values, subject, centre, index).0.wf(),
        examinee_checked(examinee, values, subject, centre, index).0.identifier
            == examinee.identifier,
{
    lemma_centres_after_distinct(examinee.subjects, subject);
}

/// Merging a row into the examinees keeps every identifier listed once
/// and every examinee well formed.
pub proof fn lemma_examinees_after_wf(
    examinees: Seq<ExamineeForImportView>,
    row: Seq<Seq<char>>,
    index: usize,
    settings: ExamineeImportSettings,
    subject: Seq<char>,
    centre: Option<Seq<char>>,
)
    requires
        distinct(identifiers(examinees)),
        forall|i: int| 0 <= i < examinees.len() ==> (#[trigger] examinees[i]).wf(),
    ensures
        distinct(identifiers(examinees_after(examinees, row, index, settings, subject, centre).0)),
        forall|i: int|
            0 <= i < examinees_after(examinees, row, index, settings, subject, centre).0.len()
                ==> (#[trigger] examinees_after(
                examinees,
                row,
                index,
                settings,
                subject,
                centre,
            ).0[i]).wf(),
{
    match row_values(row, index, settings) {
        Err(_) => {},
        Ok(values) => {
            let names = identifiers(examinees);
            lemma_position(names, values.identifier);
            let at = position(names, values.identifier);
            let listed = if at < examinees.len() {
                examinees
            } else {
                examinees.push(fresh_examinee(values.identifier))
            };
            assert(listed[at].identifier == values.identifier);
            assert(listed[at].wf());
            assert(identifiers(listed) =~= if at < examinees.len() {
                names
            } else {
                names.push(values.identifier)
            });
            lemma_examinee_checked_wf(listed[at], values, subject, centre, index);
            let checked = examinee_checked(listed[at], values, subject, centre, index);
            let after = listed.update(at, checked.0);
            assert(identifiers(after) =~= identifiers(listed));
            assert forall|i: int| 0 <= i < after.len() implies (#[trigger] after[i]).wf() by {
                if i != at {
                    assert(after[i] == listed[i]);
                    if i < examinees.len() {
                        assert(listed[i] == examinees[i]);
                    }
                }
            }
        },
    }
}

/// Reading a row keeps the progress well formed.
pub proof fn lemma_row_imported_wf(
    progress: ImportProgressView,
    row: Seq<Seq<char>>,
    index: usize,
    settings: ExamineeImportSettings,
)
    requires
        progress.wf(),
    ensures
        row_imported(progress, row, index, settings).0.wf(),
{
    match trimmed_cell(row, settings.subject_name_column) {
        None => {},
        Some(subject) => {
            let centre = trimmed_cell(row, settings.academic_centre_column);
            lemma_subjects_after_distinct(progress.subjects, subject, kind_in_row(row, settings));
            if centre is Some {
                lemma_centres_after_distinct(progress.academic_centres, centre->0);
            }
            lemma_examinees_after_wf(progress.examinees, row, index, settings, subject, centre);
        },
    }
}

/// Reading rows keeps the progress well formed, whether or not a row is
/// refused.
pub proof fn lemma_rows_imported_wf(
    progress: ImportProgressView,
    rows: Seq<Seq<Seq<char>>>,
    from: int,
    settings: ExamineeImportSettings,
)
    requires
        progress.wf(),
    ensures
        rows_imported(progress, rows, from, settings).0.wf(),
    decreases rows.len() - from,
{
    if 0 <= from < rows.len() {
        lemma_row_imported_wf(progress, rows[from], from as usize, settings);
        let next = row_imported(progress, rows[from], from as usize, settings);
        if next.1 is Ok {
            lemma_rows_imported_wf(next.0, rows, from + 1, settings);
        }
    }
}

} // verus!
