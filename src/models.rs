//! Records of the classroom backend, its response envelope, and the checks
//! it makes on requests before touching its store.

use vstd::prelude::*;
use vstd::string::StrSliceExecFns;
use vstd::utf8::encode_utf8;
use crate::text::same_text;

verus! {

/// Claims carried by an access token.
#[derive(Debug, Clone)]
pub struct Claims {
    /// User id.
    pub sub: i64,
    pub username: String,
    pub role: String,
    /// Expiry, in seconds since the epoch.
    pub exp: i64,
}

/// A user account.
#[derive(Debug, Clone)]
pub struct User {
    pub user_id: i64,
    pub user_name: String,
    pub role: String,
    pub status: bool,
}

#[derive(Debug, Clone)]
pub struct RegisterRequest {
    pub username: String,
    pub password: String,
    pub role: String,
}

#[derive(Debug, Clone)]
pub struct LoginRequest {
    pub username: String,
    pub password: String,
}

#[derive(Debug, Clone)]
pub struct AuthResponse {
    pub success: bool,
    pub message: String,
    pub token: Option<String>,
    pub user: Option<User>,
}

#[derive(Debug, Clone)]
pub struct SchoolYear {
    pub school_year_id: Option<i64>,
    pub school_year_name: String,
    pub start_date: Option<String>,
    pub end_date: Option<String>,
}

#[derive(Debug, Clone)]
pub struct Grade {
    pub grade_id: Option<i64>,
    pub grade_name: String,
    pub school_year_id: Option<i64>,
}

#[derive(Debug, Clone)]
pub struct Subject {
    pub subject_id: Option<i64>,
    pub subject_name: String,
    pub school_year_id: Option<i64>,
}

#[derive(Debug, Clone)]
pub struct Teacher {
    pub teacher_id: Option<i64>,
    pub teacher_code: Option<String>,
    pub teacher_name: String,
    pub user_id: Option<i64>,
    pub created_at: Option<String>,
}

#[derive(Debug, Clone)]
pub struct TeacherSubject {
    pub teacher_subject_id: Option<i64>,
    pub subject_id: i64,
    pub teacher_id: i64,
}

#[derive(Debug, Clone)]
pub struct Student {
    pub student_id: Option<i64>,
    pub student_code: Option<String>,
    pub student_name: String,
    pub user_id: Option<i64>,
    pub grade_id: Option<i64>,
    pub created_at: Option<String>,
}

#[derive(Debug, Clone)]
pub struct StudentEnrollment {
    pub student_enrollment_id: Option<i64>,
    pub student_id: i64,
    pub grade_id: i64,
}

#[derive(Debug, Clone)]
pub struct PracticeTimeSlot {
    pub practice_time_slot_id: Option<i64>,
    pub practice_time_slot_name: Option<String>,
    pub school_year_id: Option<i64>,
    pub start_time: Option<String>,
    pub end_time: Option<String>,
}

/// A computer of the room; `status` is "Active", "Repairing" or "Broken".
#[derive(Debug, Clone)]
pub struct RoomComputer {
    pub room_computer_id: Option<i64>,
    pub computer_name: String,
    pub ip_address: Option<String>,
    pub status: Option<String>,
}

/// An event in a room computer's life; `history_type` is "Breakdown" or
/// "Repair".
#[derive(Debug, Clone)]
pub struct ComputerHistory {
    pub computer_history_id: Option<i64>,
    pub room_computer_id: i64,
    pub history_type: Option<String>,
    pub history_description: Option<String>,
    pub created_at: Option<String>,
}

#[derive(Debug, Clone)]
pub struct MapSchoolYearGrade {
    pub m_school_year_grade_id: Option<i64>,
    pub school_year_id: i64,
    pub grade_id: i64,
}

#[derive(Debug, Clone)]
pub struct MapSchoolYearGradeSubject {
    pub m_school_year_grade_subject_id: Option<i64>,
    pub m_school_year_grade_id: i64,
    pub subject_id: i64,
}

#[derive(Debug, Clone)]
pub struct MapSchoolYearGradeSubjectPracticeTimeSlot {
    pub m_school_year_grade_subject_practice_time_slot_id: Option<i64>,
    pub m_school_year_grade_subject_id: i64,
    pub practice_time_slot_id: i64,
}

#[derive(Debug, Clone)]
pub struct PracticeSession {
    pub practice_session_id: Option<i64>,
    pub practice_session_name: String,
    pub created_by_user_id: Option<i64>,
    pub grade_id: Option<i64>,
    pub subject_id: Option<i64>,
    pub school_year_id: Option<i64>,
    pub practice_time_slot_id: Option<i64>,
    pub m_school_year_grade_subject_practice_time_slot_id: Option<i64>,
    pub status: Option<bool>,
    pub created_at: Option<String>,
}

/// A message of a practice session; `message_type` is "Direct" or "All".
#[derive(Debug, Clone)]
pub struct PracticeMessage {
    pub message_id: Option<i64>,
    pub practice_session_id: i64,
    pub message_sender_name: Option<String>,
    pub message_sender_ref_code: Option<String>,
    pub message_receiver_name: Option<String>,
    pub message_receiver_ref_code: Option<String>,
    pub message_type: Option<String>,
    pub message_context: Option<String>,
    pub message_voice_file_path: Option<String>,
    pub created_at: Option<String>,
}

#[derive(Debug, Clone)]
pub struct PracticeMaterial {
    pub practice_material_id: Option<i64>,
    pub practice_session_id: i64,
    pub practice_material_title: String,
    pub practice_material_file_path: Option<String>,
    pub practice_material_description: Option<String>,
    pub created_at: Option<String>,
}

/// A host that answered a scan of the backend.
#[derive(Debug, Clone)]
pub struct HostInfo {
    pub ip: String,
    pub is_alive: bool,
}

#[derive(Debug, Clone)]
pub struct ComputerStatusResult {
    pub ip: String,
    pub online: bool,
    pub message: String,
}

/// Envelope of every backend response.
#[derive(Debug, Clone)]
pub struct ApiResponse<T> {
    pub success: bool,
    pub data: Option<T>,
    pub error: Option<String>,
}

impl<T> ApiResponse<T> {
    /// A successful response carrying `data`.
    pub fn ok(data: T) -> (r: Self)
        ensures
            r.success,
            r.data == Some(data),
            r.error is None,
    {
        ApiResponse { success: true, data: Some(data), error: None }
    }

    /// A failed response carrying the message.
    pub fn err(message: &str) -> (r: Self)
        ensures
            !r.success,
            r.data is None,
            r.error matches Some(e) && e@ == message@,
    {
        ApiResponse { success: false, data: None, error: Some(String::from_str(message)) }
    }
}

/// The token of an `Authorization` header: what follows `Bearer `.
pub open spec fn bearer_token(header: Seq<char>) -> Option<Seq<char>> {
    let p = "Bearer "@;
    if header.len() >= p.len() && header.subrange(0, p.len() as int) == p {
        Some(header.subrange(p.len() as int, header.len() as int))
    } else {
        None
    }
}

/// The token of an `Authorization` header, if the header is there and of
/// the form `Bearer <token>`.
pub fn extract_token_from_header(auth_header: Option<&str>) -> (r: Option<String>)
    ensures
        match auth_header {
            Some(h) => match bearer_token(h@) {
                Some(t) => r matches Some(s) && s@ == t,
                None => r is None,
            },
            None => r is None,
        },
{
    match auth_header {
        None => None,
        Some(h) => {
            let prefix = "Bearer ";
            proof { reveal_strlit("Bearer "); }
            let m = prefix.unicode_len();
            let n = h.unicode_len();
            if n < m {
                return None;
            }
            let head = h.substring_char(0, m);
            if !same_text(head, prefix) {
                return None;
            }
            Some(String::from_str(h.substring_char(m, n)))
        },
    }
}

/// Roles an account may have.
pub open spec fn valid_role_spec(role: Seq<char>) -> bool {
    role == "Student"@ || role == "Teacher"@ || role == "Administrator"@
}

/// Whether an account may have `role`.
pub fn valid_role(role: &str) -> (r: bool)
    ensures
        r == valid_role_spec(role@),
{
    same_text(role, "Student") || same_text(role, "Teacher") || same_text(role, "Administrator")
}

/// Why a registration is refused before it reaches the store, if it is:
/// a user name under 3 bytes or a password under 6 bytes.
pub fn credentials_error(username: &str, password: &str) -> (r: Option<String>)
    ensures
        encode_utf8(username@).len() < 3 ==> (r matches Some(m) && m@
            == "Username must be at least 3 characters"@),
        encode_utf8(username@).len() >= 3 && encode_utf8(password@).len() < 6 ==> (r matches Some(m)
            && m@ == "Password must be at least 6 characters"@),
        encode_utf8(username@).len() >= 3 && encode_utf8(password@).len() >= 6 ==> r is None,
{
    if username.as_bytes().len() < 3 {
        Some(String::from_str("Username must be at least 3 characters"))
    } else if password.as_bytes().len() < 6 {
        Some(String::from_str("Password must be at least 6 characters"))
    } else {
        None
    }
}

/// Why a backend registration is refused before it reaches the store, if
/// it is: the checks on the credentials, then the role.
pub fn registration_error(req: &RegisterRequest) -> (r: Option<String>)
    ensures
        encode_utf8(req.username@).len() < 3 ==> (r matches Some(m) && m@
            == "Username must be at least 3 characters"@),
        encode_utf8(req.username@).len() >= 3 && encode_utf8(req.password@).len() < 6 ==> (r matches Some(
            m,
        ) && m@ == "Password must be at least 6 characters"@),
        encode_utf8(req.username@).len() >= 3 && encode_utf8(req.password@).len()
            >= 6 ==> match r {
            Some(m) => !valid_role_spec(req.role@) && m@
                == "Invalid role. Must be Student, Teacher, or Administrator"@,
            None => valid_role_spec(req.role@),
        },
{
    match credentials_error(req.username.as_str(), req.password.as_str()) {
        Some(m) => Some(m),
        None => {
            if valid_role(req.role.as_str()) {
                None
            } else {
                Some(String::from_str("Invalid role. Must be Student, Teacher, or Administrator"))
            }
        },
    }
}

/// Status a room computer gets when the request names none.
pub fn computer_status_or_default(status: &Option<String>) -> (r: String)
    ensures
        match status {
            Some(s) => r@ == s@,
            None => r@ == "Active"@,
        },
{
    match status {
        Some(s) => s.clone(),
        None => String::from_str("Active"),
    }
}

} // verus!
