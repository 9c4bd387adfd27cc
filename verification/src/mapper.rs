//! The state behind the grade form and its message-dispatch protocol.
//!
//! The presentation layer owns only widgets; every user action reaches this
//! module as one discrete [`Message`], handled to completion by
//! [`GradeMapper::update`] before the next. The raw text field is cleared
//! after every submission, accepted or rejected. The selected work type and
//! its weight reset to classwork whenever the text parsed as a number (so
//! also on an out-of-range grade), and are retained when it did not, so the
//! user can pick again only where a commit was attempted.

use vstd::prelude::*;

use crate::ledger::{is_recomputed, AvgDisplay, GradeEntry, Ledger, LedgerError};
use crate::validate::{spec_validate, ValidationError};

verus! {

/// The work types the form offers, each mapping to a fixed weight.
#[derive(Clone, Copy, Debug, PartialEq, Eq, Structural)]
pub enum WorkType {
    Classwork,
    Test1,
    Test2,
    VocalExam,
    Exam,
}

impl WorkType {
    /// The weight of this work type, in tenths: classwork 1.0 up to exam 1.5.
    pub open spec fn spec_weight(self) -> u32 {
        match self {
            WorkType::Classwork => 10,
            WorkType::Test1 => 12,
            WorkType::Test2 => 13,
            WorkType::VocalExam => 14,
            WorkType::Exam => 15,
        }
    }

    /// The weight of this work type, in tenths.
    pub fn weight(self) -> (w: u32)
        ensures
            w == self.spec_weight(),
            1 <= w,
    {
        match self {
            WorkType::Classwork => 10,
            WorkType::Test1 => 12,
            WorkType::Test2 => 13,
            WorkType::VocalExam => 14,
            WorkType::Exam => 15,
        }
    }
}

/// One user action, dispatched by the presentation layer.
#[derive(Clone, Debug)]
pub enum Message {
    /// The raw text field changed to this content.
    EditGrade(String),
    /// A work-type button was chosen.
    WorkTypeChoice(WorkType),
    /// The submit button: validate the text and commit an entry.
    ProcessGrade,
    /// The remove button: drop the most recent entry.
    RemoveGrade,
}

/// The whole state behind the form: the raw text being edited, the selected
/// work type with its weight, and the ledger with its displayed average.
pub struct GradeMapper {
    pub current_grade: String,
    pub work_type: WorkType,
    pub current_weight: u32,
    pub ledger: Ledger,
}

impl GradeMapper {
    /// The ledger is valid and the held weight always matches the selected
    /// work type.
    pub open spec fn wf(self) -> bool {
        &&& self.ledger.wf()
        &&& self.current_weight == self.work_type.spec_weight()
    }

    /// The initial state: empty text, classwork selected, empty ledger,
    /// blank display.
    pub fn new() -> (m: GradeMapper)
        ensures
            m.wf(),
            m.current_grade@ == Seq::<char>::empty(),
            m.work_type == WorkType::Classwork,
            m.current_weight == 10,
            m.ledger.entries@.len() == 0,
            m.ledger.avg == AvgDisplay::Blank,
    {
        GradeMapper {
            current_grade: String::new(),
            work_type: WorkType::Classwork,
            current_weight: 10,
            ledger: Ledger::new(),
        }
    }

    /// Handle one message to completion.
    ///
    /// Editing replaces the raw text; choosing a work type sets it and its
    /// weight; submitting validates the text and either commits an entry or
    /// surfaces the error in the display, clearing the text either way and
    /// resetting the work type exactly when the text parsed as a number;
    /// removing drops the most recent entry, or surfaces an error on an
    /// empty ledger.
    pub fn update(&mut self, msg: Message)
        requires
            old(self).wf(),
        ensures
            final(self).wf(),
            (msg matches Message::EditGrade(s) ==> {
                &&& final(self).current_grade@ == s@
                &&& final(self).work_type == old(self).work_type
                &&& final(self).current_weight == old(self).current_weight
                &&& final(self).ledger == old(self).ledger
            }),
            (msg matches Message::WorkTypeChoice(t) ==> {
                &&& final(self).current_grade@ == old(self).current_grade@
                &&& final(self).work_type == t
                &&& final(self).current_weight == t.spec_weight()
                &&& final(self).ledger == old(self).ledger
            }),
            (msg matches Message::ProcessGrade ==> {
                &&& final(self).current_grade@ == Seq::<char>::empty()
                &&& match spec_validate(old(self).current_grade@) {
                    Ok(g) => {
                        &&& final(self).ledger.entries@ == old(self).ledger.entries@.push(
                            (GradeEntry { grade: g, weight: old(self).current_weight }),
                        )
                        &&& is_recomputed(final(self).ledger.avg, final(self).ledger.entries@)
                        &&& final(self).work_type == WorkType::Classwork
                        &&& final(self).current_weight == 10
                    },
                    Err(ValidationError::OutOfRange) => {
                        &&& final(self).ledger.entries@ == old(self).ledger.entries@
                        &&& final(self).ledger.avg == AvgDisplay::Invalid(
                            ValidationError::OutOfRange,
                        )
                        &&& final(self).work_type == WorkType::Classwork
                        &&& final(self).current_weight == 10
                    },
                    Err(ValidationError::NotANumber) => {
                        &&& final(self).ledger.entries@ == old(self).ledger.entries@
                        &&& final(self).ledger.avg == AvgDisplay::Invalid(
                            ValidationError::NotANumber,
                        )
                        &&& final(self).work_type == old(self).work_type
                        &&& final(self).current_weight == old(self).current_weight
                    },
                }
            }),
            (msg matches Message::RemoveGrade ==> {
                &&& final(self).current_grade@ == old(self).current_grade@
                &&& final(self).work_type == old(self).work_type
                &&& final(self).current_weight == old(self).current_weight
                &&& (old(self).ledger.entries@.len() == 0 ==> {
                    &&& final(self).ledger.entries@ == old(self).ledger.entries@
                    &&& final(self).ledger.avg == AvgDisplay::Unavailable(
                        LedgerError::EmptyLedgerOnRemove,
                    )
                })
                &&& (old(self).ledger.entries@.len() > 0 ==> {
                    &&& final(self).ledger.entries@ == old(self).ledger.entries@.drop_last()
                    &&& is_recomputed(final(self).ledger.avg, final(self).ledger.entries@)
                })
            }),
    {
        match msg {
            Message::ProcessGrade => {
                let res = self.ledger.submit(self.current_grade.as_str(), self.current_weight);
                match res {
                    Err(ValidationError::NotANumber) => {},
                    _ => {
                        self.work_type = WorkType::Classwork;
                        self.current_weight = 10;
                    },
                }
                self.current_grade = String::new();
            },
            Message::WorkTypeChoice(t) => {
                self.current_weight = t.weight();
                self.work_type = t;
            },
            Message::RemoveGrade => {
                let _ = self.ledger.remove_last();
            },
            Message::EditGrade(s) => {
                self.current_grade = s;
            },
        }
    }
}

} // verus!
