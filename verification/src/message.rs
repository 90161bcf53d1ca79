//! The translatable texts that the library picks; the screens look each one up
//! in the current locale by its message id.

use vstd::prelude::*;

verus! {

/// A translatable text.
#[derive(Clone, Copy, Debug, PartialEq, Eq, Hash, Structural)]
pub enum Message {
    Pending,
    WorkInProgress,
    Complete,
    Cancel,
    High,
    Medium,
    Low,
    Monday,
    Tuesday,
    Wednesday,
    Thursday,
    Friday,
    Saturday,
    Sunday,
    ProjectEmpty,
    TitleEmpty,
    SaveError,
    SaveFail,
    LightBlue,
    DarkOrange,
    WindowsLight,
    WindowsDark,
    Sakura,
    Violet,
    Chrome,
    System,
    English,
    Japanese,
    German,
    Chinese,
    Vietnamese,
    Spanish,
}

/// The message id under which the translations of a text are filed.
pub open spec fn spec_message_id(message: Message) -> Seq<char> {
    match message {
        Message::Pending => "pending"@,
        Message::WorkInProgress => "work-in-progress"@,
        Message::Complete => "complete"@,
        Message::Cancel => "cancel"@,
        Message::High => "high"@,
        Message::Medium => "medium"@,
        Message::Low => "low"@,
        Message::Monday => "monday"@,
        Message::Tuesday => "tuesday"@,
        Message::Wednesday => "wednesday"@,
        Message::Thursday => "thursday"@,
        Message::Friday => "friday"@,
        Message::Saturday => "saturday"@,
        Message::Sunday => "sunday"@,
        Message::ProjectEmpty => "project-empty"@,
        Message::TitleEmpty => "title-empty"@,
        Message::SaveError => "save-error"@,
        Message::SaveFail => "save-fail"@,
        Message::LightBlue => "light-blue"@,
        Message::DarkOrange => "dark-orange"@,
        Message::WindowsLight => "windows-light"@,
        Message::WindowsDark => "windows-dark"@,
        Message::Sakura => "sakura"@,
        Message::Violet => "violet"@,
        Message::Chrome => "chrome"@,
        Message::System => "system"@,
        Message::English => "english"@,
        Message::Japanese => "japanese"@,
        Message::German => "german"@,
        Message::Chinese => "chinese"@,
        Message::Vietnamese => "vietnamese"@,
        Message::Spanish => "spanish"@,
    }
}

/// The message id of a text.
pub fn message_id(message: Message) -> (id: &'static str)
    ensures
        id@ == spec_message_id(message),
{
    match message {
        Message::Pending => "pending",
        Message::WorkInProgress => "work-in-progress",
        Message::Complete => "complete",
        Message::Cancel => "cancel",
        Message::High => "high",
        Message::Medium => "medium",
        Message::Low => "low",
        Message::Monday => "monday",
        Message::Tuesday => "tuesday",
        Message::Wednesday => "wednesday",
        Message::Thursday => "thursday",
        Message::Friday => "friday",
        Message::Saturday => "saturday",
        Message::Sunday => "sunday",
        Message::ProjectEmpty => "project-empty",
        Message::TitleEmpty => "title-empty",
        Message::SaveError => "save-error",
        Message::SaveFail => "save-fail",
        Message::LightBlue => "light-blue",
        Message::DarkOrange => "dark-orange",
        Message::WindowsLight => "windows-light",
        Message::WindowsDark => "windows-dark",
        Message::Sakura => "sakura",
        Message::Violet => "violet",
        Message::Chrome => "chrome",
        Message::System => "system",
        Message::English => "english",
        Message::Japanese => "japanese",
        Message::German => "german",
        Message::Chinese => "chinese",
        Message::Vietnamese => "vietnamese",
        Message::Spanish => "spanish",
    }
}

} // verus!
