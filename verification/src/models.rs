//! The persisted entities.
//!
//! Identifiers are UUIDs carried as their 128-bit value; the storage layer
//! turns them into their canonical string form on the way to the store and
//! back. Points in time are UTC unix seconds; calendar dates are a year,
//! month and day with no time-of-day.

use vstd::prelude::*;

verus! {

/// The last second of the year 9999 (UTC), the latest point in time the
/// store accepts: beyond it a timestamp no longer fits the four-digit-year
/// form the store persists.
pub const MAX_TIMESTAMP: i64 = 253402300799;

/// A timestamp the store can hold.
pub open spec fn valid_timestamp(t: i64) -> bool {
    0 <= t <= MAX_TIMESTAMP
}

/// Clamps a timestamp into the range the store can hold; a timestamp
/// already in range passes through unchanged.
pub fn clamp_timestamp(t: i64) -> (r: i64)
    ensures
        valid_timestamp(r),
        valid_timestamp(t) ==> r == t,
{
    if t < 0 {
        0
    } else if t > MAX_TIMESTAMP {
        MAX_TIMESTAMP
    } else {
        t
    }
}

/// A calendar date with no time-of-day, persisted as a `YYYY-MM-DD` string.
#[derive(Clone, Copy, PartialEq, Eq, Structural, Debug)]
pub struct Date {
    pub year: i32,
    pub month: u8,
    pub day: u8,
}

/// The proleptic Gregorian leap-year rule.
pub open spec fn is_leap_year(y: int) -> bool {
    (y % 4 == 0 && y % 100 != 0) || y % 400 == 0
}

/// How many days the given month of the given year has.
pub open spec fn days_in_month(y: int, m: int) -> int {
    if m == 2 {
        if is_leap_year(y) {
            29
        } else {
            28
        }
    } else if m == 4 || m == 6 || m == 9 || m == 11 {
        30
    } else {
        31
    }
}

impl Date {
    /// A date that exists on the calendar and fits the four-digit-year
    /// `YYYY-MM-DD` form the store persists.
    pub open spec fn valid(self) -> bool {
        &&& 0 <= self.year <= 9999
        &&& 1 <= self.month <= 12
        &&& 1 <= self.day
        &&& self.day as int <= days_in_month(self.year as int, self.month as int)
    }

    /// Decides validity, exactly as `valid` states it.
    pub fn is_valid(&self) -> (r: bool)
        ensures
            r == self.valid(),
    {
        let leap: bool = (self.year % 4 == 0 && self.year % 100 != 0) || self.year % 400 == 0;
        let max_day: u8 = if self.month == 2 {
            if leap {
                29
            } else {
                28
            }
        } else if self.month == 4 || self.month == 6 || self.month == 9 || self.month == 11 {
            30
        } else {
            31
        };
        0 <= self.year && self.year <= 9999 && 1 <= self.month && self.month <= 12 && 1 <= self.day
            && self.day <= max_day
    }
}

/// An account holder.
#[derive(Debug)]
pub struct User {
    pub user_id: u128,
    pub user_name: String,
    pub user_password_hash: String,
    pub user_mail: String,
    pub created_at: i64,
}

/// The mathematical value of a `User`.
pub ghost struct UserView {
    pub user_id: u128,
    pub user_name: Seq<char>,
    pub user_password_hash: Seq<char>,
    pub user_mail: Seq<char>,
    pub created_at: i64,
}

impl View for User {
    type V = UserView;

    open spec fn view(&self) -> UserView {
        UserView {
            user_id: self.user_id,
            user_name: self.user_name@,
            user_password_hash: self.user_password_hash@,
            user_mail: self.user_mail@,
            created_at: self.created_at,
        }
    }
}

/// A device registered for push delivery.
pub struct Device {
    pub device_id: u128,
    pub user_id: u128,
    pub device_type: String,
    pub push_token: Option<String>,
    pub last_seen: Option<i64>,
}

/// A named collection of tasks owned by exactly one user.
#[derive(Debug)]
pub struct TaskList {
    pub list_id: u128,
    pub user_id: u128,
    pub name: String,
}

/// The mathematical value of a `TaskList`.
pub ghost struct TaskListView {
    pub list_id: u128,
    pub user_id: u128,
    pub name: Seq<char>,
}

impl View for TaskList {
    type V = TaskListView;

    open spec fn view(&self) -> TaskListView {
        TaskListView { list_id: self.list_id, user_id: self.user_id, name: self.name@ }
    }
}

/// A single actionable item belonging to a `TaskList`. Its owning user is
/// never stored on the task itself: ownership is resolved through the list.
#[derive(Debug)]
pub struct Task {
    pub task_id: u128,
    pub list_id: u128,
    pub content: String,
    pub is_completed: bool,
    pub due_date: Option<Date>,
    pub created_at: i64,
}

/// The mathematical value of a `Task`.
pub ghost struct TaskView {
    pub task_id: u128,
    pub list_id: u128,
    pub content: Seq<char>,
    pub is_completed: bool,
    pub due_date: Option<Date>,
    pub created_at: i64,
}

impl View for Task {
    type V = TaskView;

    open spec fn view(&self) -> TaskView {
        TaskView {
            task_id: self.task_id,
            list_id: self.list_id,
            content: self.content@,
            is_completed: self.is_completed,
            due_date: self.due_date,
            created_at: self.created_at,
        }
    }
}

/// The given task record with its completion flag set as asked; every other
/// field is kept.
pub open spec fn with_completion(t: TaskView, done: bool) -> TaskView {
    TaskView {
        task_id: t.task_id,
        list_id: t.list_id,
        content: t.content,
        is_completed: done,
        due_date: t.due_date,
        created_at: t.created_at,
    }
}

/// A block of time reserved on a user's calendar.
pub struct Block {
    pub block_id: u128,
    pub user_id: u128,
    pub start_time: i64,
    pub end_time: i64,
}

/// Links a task to a time block it is scheduled in.
pub struct TaskBlock {
    pub task_id: u128,
    pub block_id: u128,
}

/// A site or application a user chose to block during focus time.
pub struct BlockedItem {
    pub item_id: u128,
    pub user_id: u128,
    pub item_type: String,
    pub identifier: String,
    pub is_active: bool,
}

/// An ambient sound available for playback.
pub struct Sound {
    pub sound_id: u128,
    pub name: String,
    pub category: Option<String>,
    pub file_url: String,
}

/// Marks a sound as a user's favorite.
pub struct FavoriteSound {
    pub user_id: u128,
    pub sound_id: u128,
}

/// A recurring habit a user tracks.
pub struct Habit {
    pub habit_id: u128,
    pub user_id: u128,
    pub name: String,
    pub description: Option<String>,
    pub habit_cover: Option<String>,
    pub frequency_type: String,
}

/// One recorded completion of a habit.
pub struct HabitEntry {
    pub entry_id: u128,
    pub habit_id: u128,
    pub completion_date: Date,
    pub notes: Option<String>,
}

/// A pomodoro-timer configuration.
pub struct Pomodoro {
    pub pomodoro_id: u128,
    pub user_id: u128,
    pub pomodoro_name: String,
    pub pomodoro_cover: Option<String>,
    pub work_duration: i32,
    pub short_break_duration: i32,
    pub long_break_duration: i32,
    pub long_break_interval: i32,
    pub created_at: i64,
    pub updated_at: Option<i64>,
}

} // verus!
