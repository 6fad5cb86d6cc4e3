//! The records that the repositories write, the search query, and the
//! enumerations stored in the database, with the names the database uses.
use vstd::prelude::*;

verus! {

/// Kind of a course.
#[derive(Clone, Copy, Debug, PartialEq, Eq, Structural)]
pub enum CourseType {
    LiberalArts,
    MajorSubjects,
}

/// Weekday on which a course is held.
#[derive(Clone, Copy, Debug, PartialEq, Eq, Structural)]
pub enum DayOfWeek {
    Monday,
    Tuesday,
    Wednesday,
    Thursday,
    Friday,
}

/// Lifecycle state of a course.
#[derive(Clone, Copy, Debug, PartialEq, Eq, Structural)]
pub enum CourseStatus {
    Registration,
    InProgress,
    Closed,
}

/// Role of a user.
#[derive(Clone, Copy, Debug, PartialEq, Eq, Structural)]
pub enum UserType {
    Student,
    Teacher,
}

impl CourseType {
    /// The value the database stores for this kind.
    pub open spec fn spec_db_name(self) -> Seq<char> {
        match self {
            CourseType::LiberalArts => "liberal-arts"@,
            CourseType::MajorSubjects => "major-subjects"@,
        }
    }

    pub fn db_name(&self) -> (s: &'static str)
        ensures
            s@ == self.spec_db_name(),
    {
        match self {
            CourseType::LiberalArts => "liberal-arts",
            CourseType::MajorSubjects => "major-subjects",
        }
    }
}

impl DayOfWeek {
    /// The value the database stores for this day.
    pub open spec fn spec_db_name(self) -> Seq<char> {
        match self {
            DayOfWeek::Monday => "monday"@,
            DayOfWeek::Tuesday => "tuesday"@,
            DayOfWeek::Wednesday => "wednesday"@,
            DayOfWeek::Thursday => "thursday"@,
            DayOfWeek::Friday => "friday"@,
        }
    }

    pub fn db_name(&self) -> (s: &'static str)
        ensures
            s@ == self.spec_db_name(),
    {
        match self {
            DayOfWeek::Monday => "monday",
            DayOfWeek::Tuesday => "tuesday",
            DayOfWeek::Wednesday => "wednesday",
            DayOfWeek::Thursday => "thursday",
            DayOfWeek::Friday => "friday",
        }
    }
}

impl CourseStatus {
    /// The value the database stores for this state.
    pub open spec fn spec_db_name(self) -> Seq<char> {
        match self {
            CourseStatus::Registration => "registration"@,
            CourseStatus::InProgress => "in-progress"@,
            CourseStatus::Closed => "closed"@,
        }
    }

    pub fn db_name(&self) -> (s: &'static str)
        ensures
            s@ == self.spec_db_name(),
    {
        match self {
            CourseStatus::Registration => "registration",
            CourseStatus::InProgress => "in-progress",
            CourseStatus::Closed => "closed",
        }
    }
}

impl UserType {
    /// The value the database stores for this role.
    pub open spec fn spec_db_name(self) -> Seq<char> {
        match self {
            UserType::Student => "student"@,
            UserType::Teacher => "teacher"@,
        }
    }

    pub fn db_name(&self) -> (s: &'static str)
        ensures
            s@ == self.spec_db_name(),
    {
        match self {
            UserType::Student => "student",
            UserType::Teacher => "teacher",
        }
    }
}

/// Law: each weekday is stored under its own lowercase English name, so
/// two different days are never stored alike.
pub proof fn lemma_day_of_week_names()
    ensures
        DayOfWeek::Monday.spec_db_name() == "monday"@,
        DayOfWeek::Tuesday.spec_db_name() == "tuesday"@,
        DayOfWeek::Wednesday.spec_db_name() == "wednesday"@,
        DayOfWeek::Thursday.spec_db_name() == "thursday"@,
        DayOfWeek::Friday.spec_db_name() == "friday"@,
        forall|a: DayOfWeek, b: DayOfWeek| #[trigger] a.spec_db_name() == #[trigger] b.spec_db_name() ==> a == b,
{
    reveal_strlit("monday");
    reveal_strlit("tuesday");
    reveal_strlit("wednesday");
    reveal_strlit("thursday");
    reveal_strlit("friday");
    assert forall|a: DayOfWeek, b: DayOfWeek| #[trigger] a.spec_db_name() == #[trigger] b.spec_db_name() implies a == b by {
        if a != b {
            let x = a.spec_db_name();
            let y = b.spec_db_name();
            if x.len() == y.len() {
                assert(x[0] != y[0] || x[1] != y[1]);
            }
        }
    }
}

/// Law: each kind of course is stored under its own name, and the two
/// kinds are never stored alike.
pub proof fn lemma_course_type_names()
    ensures
        CourseType::LiberalArts.spec_db_name() == "liberal-arts"@,
        CourseType::MajorSubjects.spec_db_name() == "major-subjects"@,
        forall|a: CourseType, b: CourseType| #[trigger] a.spec_db_name() == #[trigger] b.spec_db_name() ==> a == b,
{
    reveal_strlit("liberal-arts");
    reveal_strlit("major-subjects");
    assert forall|a: CourseType, b: CourseType| #[trigger] a.spec_db_name() == #[trigger] b.spec_db_name() implies a == b by {
        if a != b {
            assert(a.spec_db_name().len() != b.spec_db_name().len());
        }
    }
}

/// Law: each state of a course is stored under its own name, and two
/// different states are never stored alike.
pub proof fn lemma_course_status_names()
    ensures
        CourseStatus::Registration.spec_db_name() == "registration"@,
        CourseStatus::InProgress.spec_db_name() == "in-progress"@,
        CourseStatus::Closed.spec_db_name() == "closed"@,
        forall|a: CourseStatus, b: CourseStatus| #[trigger] a.spec_db_name() == #[trigger] b.spec_db_name() ==> a == b,
{
    reveal_strlit("registration");
    reveal_strlit("in-progress");
    reveal_strlit("closed");
    assert forall|a: CourseStatus, b: CourseStatus| #[trigger] a.spec_db_name() == #[trigger] b.spec_db_name() implies a == b by {
        if a != b {
            assert(a.spec_db_name().len() != b.spec_db_name().len());
        }
    }
}

/// Law: each role is stored under its own name, and the two roles are
/// never stored alike.
pub proof fn lemma_user_type_names()
    ensures
        UserType::Student.spec_db_name() == "student"@,
        UserType::Teacher.spec_db_name() == "teacher"@,
        forall|a: UserType, b: UserType| #[trigger] a.spec_db_name() == #[trigger] b.spec_db_name() ==> a == b,
{
    reveal_strlit("student");
    reveal_strlit("teacher");
    assert("student"@[0] != "teacher"@[0]);
}

/// A course to be inserted.
pub struct CreateCourse {
    pub id: String,
    pub code: String,
    pub type_: CourseType,
    pub name: String,
    pub description: String,
    pub credit: u8,
    pub period: u8,
    pub day_of_week: DayOfWeek,
    pub teacher_id: String,
    pub keywords: String,
}

/// A class (one part of a course) to be inserted.
pub struct CreateClass {
    pub id: String,
    pub course_id: String,
    pub part: u8,
    pub title: String,
    pub description: String,
}

/// An announcement to a course.
pub struct Announcement {
    pub id: String,
    pub course_id: String,
    pub title: String,
    pub message: String,
}

/// A submitted file of a student for a class.
pub struct CreateSubmission {
    pub user_id: String,
    pub class_id: String,
    pub file_name: String,
}

/// Search conditions for courses. Each present condition narrows the
/// result; a credit or period that is not positive is ignored.
pub struct SearchCoursesQuery {
    pub type_: Option<String>,
    pub credit: Option<i64>,
    pub teacher: Option<String>,
    pub period: Option<i64>,
    pub day_of_week: Option<String>,
    pub keywords: Option<String>,
    pub status: Option<String>,
}

} // verus!
