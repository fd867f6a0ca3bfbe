//! Where a job posting came from.

use vstd::prelude::*;
use vstd::string::*;
use crate::text::same_text;

verus! {

/// The origin of a job posting.
#[derive(Debug, Clone, Copy, PartialEq, Eq, Structural)]
pub enum JobSourceType {
    UserEntered,
    ScrapedJob,
}

/// The stored tag of a source type.
pub open spec fn source_tag(source: JobSourceType) -> Seq<char> {
    match source {
        JobSourceType::UserEntered => "user_entered"@,
        JobSourceType::ScrapedJob => "scraped"@,
    }
}

/// The source type that a tag names, if it names one.
pub open spec fn source_of_tag(tag: Seq<char>) -> Option<JobSourceType> {
    if tag == "user_entered"@ {
        Some(JobSourceType::UserEntered)
    } else if tag == "scraped"@ {
        Some(JobSourceType::ScrapedJob)
    } else {
        None
    }
}

/// The message that rejects a tag naming no source type.
pub open spec fn unknown_source_message(tag: Seq<char>) -> Seq<char> {
    "Invalid Value: "@ + tag + ", Allowed values are user_entered and scraped"@
}

impl JobSourceType {
    /// The tag under which this source type is stored. Reading the tag
    /// back gives this source type again.
    pub fn to_string(&self) -> (tag: String)
        ensures
            tag@ == source_tag(*self),
            source_of_tag(tag@) == Some(*self),
    {
        proof {
            reveal_strlit("user_entered");
            reveal_strlit("scraped");
            assert("scraped"@.len() != "user_entered"@.len());
        }
        match self {
            JobSourceType::UserEntered => String::from_str("user_entered"),
            JobSourceType::ScrapedJob => String::from_str("scraped"),
        }
    }

    /// Reads a stored tag back. Any other text is rejected with a message
    /// that quotes it.
    pub fn from_string(s: &str) -> (parsed: Result<Self, String>)
        ensures
            match source_of_tag(s@) {
                Some(source) => parsed == Ok::<Self, String>(source),
                None => parsed matches Err(message) && message@ == unknown_source_message(s@),
            },
    {
        if same_text(s, "user_entered") {
            Ok(JobSourceType::UserEntered)
        } else if same_text(s, "scraped") {
            Ok(JobSourceType::ScrapedJob)
        } else {
            let mut message = String::from_str("Invalid Value: ");
            message.append(s);
            message.append(", Allowed values are user_entered and scraped");
            Err(message)
        }
    }
}

} // verus!
