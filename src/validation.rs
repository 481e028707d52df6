//! Checking a candidate duration before it becomes a timer's configuration.
use crate::text::{decimal, push_decimal};
use vstd::prelude::*;
use vstd::string::*;

verus! {

/// One of the three fields of a duration.
#[derive(Debug, Clone, Copy, PartialEq, Eq, Structural)]
pub enum TimeField {
    Hours,
    Minutes,
    Seconds,
}

/// Why a duration was rejected.
#[derive(Debug, Clone, Copy, PartialEq, Eq, Structural)]
pub enum TimeError {
    /// `field` holds `value`, above the largest value `max` that it allows (the least is 0).
    OutOfRange { field: TimeField, value: u32, max: u32 },
    /// Hours, minutes and seconds are all zero.
    ZeroDuration,
}

/// The largest value allowed in a field: 23 hours, 59 minutes, 59 seconds.
pub open spec fn field_max(field: TimeField) -> u32 {
    match field {
        TimeField::Hours => 23,
        TimeField::Minutes => 59,
        TimeField::Seconds => 59,
    }
}

/// A duration that a timer accepts: every field within its range, and not all zero.
pub open spec fn is_valid_duration(hours: u32, minutes: u32, seconds: u32) -> bool {
    &&& hours <= 23
    &&& minutes <= 59
    &&& seconds <= 59
    &&& !(hours == 0 && minutes == 0 && seconds == 0)
}

/// The outcome of validating a duration: the rules apply in the order hours, minutes,
/// seconds, zero duration, and the first that fails gives the error.
pub open spec fn validation(hours: u32, minutes: u32, seconds: u32) -> Result<(), TimeError> {
    if hours > 23 {
        Err(TimeError::OutOfRange { field: TimeField::Hours, value: hours, max: 23 })
    } else if minutes > 59 {
        Err(TimeError::OutOfRange { field: TimeField::Minutes, value: minutes, max: 59 })
    } else if seconds > 59 {
        Err(TimeError::OutOfRange { field: TimeField::Seconds, value: seconds, max: 59 })
    } else if hours == 0 && minutes == 0 && seconds == 0 {
        Err(TimeError::ZeroDuration)
    } else {
        Ok(())
    }
}

/// Checks that a duration can configure a timer.
pub fn validate_time(hours: u32, minutes: u32, seconds: u32) -> (r: Result<(), TimeError>)
    ensures
        r == validation(hours, minutes, seconds),
        r is Ok <==> is_valid_duration(hours, minutes, seconds),
        r matches Err(TimeError::OutOfRange { field, value, max }) ==> value > max && max
            == field_max(field),
{
    if hours > 23 {
        return Err(TimeError::OutOfRange { field: TimeField::Hours, value: hours, max: 23 });
    }
    if minutes > 59 {
        return Err(TimeError::OutOfRange { field: TimeField::Minutes, value: minutes, max: 59 });
    }
    if seconds > 59 {
        return Err(TimeError::OutOfRange { field: TimeField::Seconds, value: seconds, max: 59 });
    }
    if hours == 0 && minutes == 0 && seconds == 0 {
        return Err(TimeError::ZeroDuration);
    }
    Ok(())
}

/// A raw field value as typed by a user, negative values taken as zero.
pub fn sanitize_input(raw: i32) -> (r: u32)
    ensures
        r == (if raw < 0 {
            0
        } else {
            raw as u32
        }),
{
    if raw < 0 {
        0
    } else {
        raw as u32
    }
}

/// The name of a field, as it opens an error message.
pub open spec fn field_name(field: TimeField) -> Seq<char> {
    match field {
        TimeField::Hours => "Hours"@,
        TimeField::Minutes => "Minutes"@,
        TimeField::Seconds => "Seconds"@,
    }
}

impl TimeField {
    /// The field's name, capitalised.
    pub fn name(&self) -> (r: String)
        ensures
            r@ == field_name(*self),
    {
        match self {
            TimeField::Hours => String::from_str("Hours"),
            TimeField::Minutes => String::from_str("Minutes"),
            TimeField::Seconds => String::from_str("Seconds"),
        }
    }
}

impl TimeError {
    /// The message that describes the error to a user.
    pub open spec fn text(self) -> Seq<char> {
        match self {
            TimeError::OutOfRange { field, value, max } => field_name(field)
                + " must be between 0 and "@ + decimal(max as nat) + ", got "@ + decimal(
                value as nat,
            ),
            TimeError::ZeroDuration => "Timer duration cannot be zero"@,
        }
    }

    /// Describes the error, as in "Hours must be between 0 and 23, got 24".
    pub fn message(&self) -> (r: String)
        ensures
            r@ == self.text(),
    {
        match self {
            TimeError::OutOfRange { field, value, max } => {
                let mut out = field.name();
                out.append(" must be between 0 and ");
                push_decimal(&mut out, *max);
                out.append(", got ");
                push_decimal(&mut out, *value);
                out
            },
            TimeError::ZeroDuration => String::from_str("Timer duration cannot be zero"),
        }
    }
}

} // verus!
