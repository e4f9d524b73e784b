use vstd::prelude::*;

use crate::attach::UsbError;
use crate::label::{label_type_of_bytes, resolve_label, Label, LabelType, UnsupportedMedia};
use crate::model::Model;

verus! {

/// Size of a status frame in bytes.
pub const STATUS_LEN: usize = 32;

/// Byte 0 of every status frame.
pub const PRINT_HEAD_MARK: u8 = 0x80;

/// Byte 1 of every status frame: the frame's own size.
pub const HEADER_SIZE_MARK: u8 = 0x20;

/// Offsets of the fields of a status frame.
pub const OFFSET_ERROR_INFO_1: usize = 8;

pub const OFFSET_ERROR_INFO_2: usize = 9;

pub const OFFSET_MEDIA_WIDTH: usize = 10;

pub const OFFSET_MEDIA_TYPE: usize = 11;

pub const OFFSET_MEDIA_LENGTH: usize = 17;

pub const OFFSET_STATUS_TYPE: usize = 18;

pub const OFFSET_PHASE_TYPE: usize = 19;

pub const OFFSET_NOTIFICATION: usize = 22;

/// The device error conditions a status frame reports, one bit each.
#[derive(Copy, Clone, Debug, PartialEq, Eq, Structural)]
pub struct ErrorFlags {
    pub bits: u16,
}

// Error information 1 (low byte).
pub const NO_MEDIA: u16 = 0x0001;

pub const END_OF_MEDIA: u16 = 0x0002;

pub const TAPE_CUTTER_JAM: u16 = 0x0004;

pub const MAIN_UNIT_IN_USE: u16 = 0x0010;

pub const TURNED_OFF: u16 = 0x0020;

pub const HIGH_VOLTAGE_ADAPTER: u16 = 0x0040;

pub const FAN_NOT_WORKING: u16 = 0x0080;

// Error information 2 (high byte).
pub const REPLACE_MEDIA_ERROR: u16 = 0x0100;

pub const EXPANSION_BUFFER_FULL: u16 = 0x0200;

pub const TRANSMISSION_ERROR: u16 = 0x0400;

pub const COMMUNICATION_BUFFER_FULL: u16 = 0x0800;

pub const COVER_OPEN: u16 = 0x1000;

pub const CANCEL_KEY: u16 = 0x2000;

pub const CANNOT_FEED: u16 = 0x4000;

pub const SYSTEM_ERROR: u16 = 0x8000;

impl ErrorFlags {
    /// The flags of the raw error word `raw`. Every bit is kept, bit 3 too,
    /// which has no name: any nonzero word is an error.
    pub fn from_bits(raw: u16) -> (r: ErrorFlags)
        ensures
            r.bits == raw,
    {
        ErrorFlags { bits: raw }
    }

    pub fn bits(&self) -> (r: u16)
        ensures
            r == self.bits,
    {
        self.bits
    }

    /// No error condition is set.
    pub fn is_empty(&self) -> (r: bool)
        ensures
            r == (self.bits == 0),
    {
        self.bits == 0
    }

    /// Every condition of `flags` is set.
    pub fn contains(&self, flags: u16) -> (r: bool)
        ensures
            r == (self.bits & flags == flags),
    {
        self.bits & flags == flags
    }
}

/// Why the printer sent a status frame.
#[derive(Copy, Clone, Debug, PartialEq, Eq, Structural)]
pub enum StatusType {
    StatusReply,
    PrintingCompleted,
    ErrorOccurred,
    Notification,
    PhaseChange,
    Unknown(u8),
}

/// The printer's phase.
#[derive(Copy, Clone, Debug, PartialEq, Eq, Structural)]
pub enum PhaseType {
    Waiting,
    Printing,
    Unknown(u8),
}

/// A notification the printer attaches to a status frame.
#[derive(Copy, Clone, Debug, PartialEq, Eq, Structural)]
pub enum Notification {
    CoolingStart,
    CoolingFinish,
    Unknown(u8),
}

pub open spec fn status_type_of(b: u8) -> StatusType {
    if b == 0x00 {
        StatusType::StatusReply
    } else if b == 0x01 {
        StatusType::PrintingCompleted
    } else if b == 0x02 {
        StatusType::ErrorOccurred
    } else if b == 0x05 {
        StatusType::Notification
    } else if b == 0x06 {
        StatusType::PhaseChange
    } else {
        StatusType::Unknown(b)
    }
}

pub open spec fn phase_type_of(b: u8) -> PhaseType {
    if b == 0x00 {
        PhaseType::Waiting
    } else if b == 0x01 {
        PhaseType::Printing
    } else {
        PhaseType::Unknown(b)
    }
}

/// A zero byte means that there is no notification.
pub open spec fn notification_of(b: u8) -> Option<Notification> {
    if b == 0x00 {
        None
    } else if b == 0x03 {
        Some(Notification::CoolingStart)
    } else if b == 0x04 {
        Some(Notification::CoolingFinish)
    } else {
        Some(Notification::Unknown(b))
    }
}

impl StatusType {
    pub fn from_byte(b: u8) -> (r: StatusType)
        ensures
            r == status_type_of(b),
    {
        match b {
            0x00 => StatusType::StatusReply,
            0x01 => StatusType::PrintingCompleted,
            0x02 => StatusType::ErrorOccurred,
            0x05 => StatusType::Notification,
            0x06 => StatusType::PhaseChange,
            other => StatusType::Unknown(other),
        }
    }
}

impl PhaseType {
    pub fn from_byte(b: u8) -> (r: PhaseType)
        ensures
            r == phase_type_of(b),
    {
        match b {
            0x00 => PhaseType::Waiting,
            0x01 => PhaseType::Printing,
            other => PhaseType::Unknown(other),
        }
    }
}

impl Notification {
    pub fn from_byte(b: u8) -> (r: Option<Notification>)
        ensures
            r == notification_of(b),
    {
        match b {
            0x00 => None,
            0x03 => Some(Notification::CoolingStart),
            0x04 => Some(Notification::CoolingFinish),
            other => Some(Notification::Unknown(other)),
        }
    }
}

/// A decoded status frame.
#[derive(Copy, Clone, Debug, PartialEq, Eq, Structural)]
pub struct Status {
    pub error_flags: ErrorFlags,
    /// `None` where no media is loaded.
    pub label: Option<Label>,
    pub status_type: StatusType,
    pub phase_type: PhaseType,
    pub notification: Option<Notification>,
}

/// Why a status request failed.
#[derive(Copy, Clone, Debug, PartialEq, Eq, Structural)]
pub enum StatusError {
    UsbError(UsbError),
    /// The transfer gave this many bytes instead of `STATUS_LEN`.
    WrongResponseSizeUSB(usize),
    WrongPrintHeadMark(u8),
    WrongResponseSizeHeader(u8),
    InvalidLabel(UnsupportedMedia),
}

/// The little-endian 16-bit value of two bytes.
pub open spec fn le_u16(lo: u8, hi: u8) -> u16 {
    (lo as int + 256 * (hi as int)) as u16
}

/// The label a status frame's media bytes give on printer `m`: `Ok(None)`
/// where no media is loaded.
pub open spec fn frame_label(m: Model, d: Seq<u8>) -> Result<Option<Label>, UnsupportedMedia> {
    match label_type_of_bytes(
        d[OFFSET_MEDIA_TYPE as int],
        d[OFFSET_MEDIA_WIDTH as int],
        d[OFFSET_MEDIA_LENGTH as int],
    ) {
        None => Ok(None),
        Some(t) => match resolve_label(m, t) {
            Ok(l) => Ok(Some(l)),
            Err(e) => Err(e),
        },
    }
}

/// What the bytes `d` read in answer to a status request mean on printer
/// `m`. The checks come in this order: size, print head mark, header size,
/// label.
pub open spec fn decode_status_spec(m: Model, d: Seq<u8>) -> Result<Status, StatusError> {
    if d.len() != STATUS_LEN {
        Err(StatusError::WrongResponseSizeUSB(d.len() as usize))
    } else if d[0] != PRINT_HEAD_MARK {
        Err(StatusError::WrongPrintHeadMark(d[0]))
    } else if d[1] != HEADER_SIZE_MARK {
        Err(StatusError::WrongResponseSizeHeader(d[1]))
    } else {
        match frame_label(m, d) {
            Err(e) => Err(StatusError::InvalidLabel(e)),
            Ok(label) => Ok(
                Status {
                    error_flags: ErrorFlags {
                        bits: le_u16(d[OFFSET_ERROR_INFO_1 as int], d[OFFSET_ERROR_INFO_2 as int]),
                    },
                    label,
                    status_type: status_type_of(d[OFFSET_STATUS_TYPE as int]),
                    phase_type: phase_type_of(d[OFFSET_PHASE_TYPE as int]),
                    notification: notification_of(d[OFFSET_NOTIFICATION as int]),
                },
            ),
        }
    }
}

/// The command that asks the printer for a status frame.
pub fn status_request() -> (r: Vec<u8>)
    ensures
        r@ == seq![0x1bu8, 0x69u8, 0x53u8],
{
    let r = vec![0x1b, 0x69, 0x53];
    assert(r@ =~= seq![0x1bu8, 0x69u8, 0x53u8]);
    r
}

/// Validates and decodes the bytes read in answer to `status_request` on a
/// printer of model `model`.
pub fn decode_status(model: Model, response: &[u8]) -> (r: Result<Status, StatusError>)
    ensures
        r == decode_status_spec(model, response@),
{
    if response.len() != STATUS_LEN {
        return Err(StatusError::WrongResponseSizeUSB(response.len()));
    }
    if response[0] != PRINT_HEAD_MARK {
        return Err(StatusError::WrongPrintHeadMark(response[0]));
    }
    if response[1] != HEADER_SIZE_MARK {
        return Err(StatusError::WrongResponseSizeHeader(response[1]));
    }
    let label = match LabelType::from_bytes(
        response[OFFSET_MEDIA_TYPE],
        response[OFFSET_MEDIA_WIDTH],
        response[OFFSET_MEDIA_LENGTH],
    ) {
        None => None,
        Some(t) => match Label::resolve(model, t) {
            Ok(l) => Some(l),
            Err(e) => return Err(StatusError::InvalidLabel(e)),
        },
    };
    let raw = (response[OFFSET_ERROR_INFO_1] as u16) + (response[OFFSET_ERROR_INFO_2] as u16) * 256;
    Ok(
        Status {
            error_flags: ErrorFlags::from_bits(raw),
            label,
            status_type: StatusType::from_byte(response[OFFSET_STATUS_TYPE]),
            phase_type: PhaseType::from_byte(response[OFFSET_PHASE_TYPE]),
            notification: Notification::from_byte(response[OFFSET_NOTIFICATION]),
        },
    )
}

/// A well-formed status frame carrying the given field bytes, zero elsewhere.
pub open spec fn status_frame(
    flags: u16,
    media_type: u8,
    media_width: u8,
    media_length: u8,
    status_type: u8,
    phase_type: u8,
    notification: u8,
) -> Seq<u8> {
    Seq::new(
        STATUS_LEN as nat,
        |i: int|
            if i == 0 {
                PRINT_HEAD_MARK
            } else if i == 1 {
                HEADER_SIZE_MARK
            } else if i == OFFSET_ERROR_INFO_1 {
                (flags % 256) as u8
            } else if i == OFFSET_ERROR_INFO_2 {
                (flags / 256) as u8
            } else if i == OFFSET_MEDIA_WIDTH {
                media_width
            } else if i == OFFSET_MEDIA_TYPE {
                media_type
            } else if i == OFFSET_MEDIA_LENGTH {
                media_length
            } else if i == OFFSET_STATUS_TYPE {
                status_type
            } else if i == OFFSET_PHASE_TYPE {
                phase_type
            } else if i == OFFSET_NOTIFICATION {
                notification
            } else {
                0u8
            },
    )
}

/// A frame built from known field values decodes to exactly those values: the
/// whole error word, the label of the media bytes, and the status, phase
/// and notification codes.
pub proof fn lemma_status_frame_round_trip(
    m: Model,
    flags: u16,
    media_type: u8,
    media_width: u8,
    media_length: u8,
    status_type: u8,
    phase_type: u8,
    notification: u8,
)
    ensures
        ({
            let d = status_frame(
                flags,
                media_type,
                media_width,
                media_length,
                status_type,
                phase_type,
                notification,
            );
            match frame_label(m, d) {
                Err(e) => decode_status_spec(m, d) == Err::<Status, StatusError>(
                    StatusError::InvalidLabel(e),
                ),
                Ok(label) => decode_status_spec(m, d) == Ok::<Status, StatusError>(
                    Status {
                        error_flags: ErrorFlags { bits: flags },
                        label,
                        status_type: status_type_of(status_type),
                        phase_type: phase_type_of(phase_type),
                        notification: notification_of(notification),
                    },
                ),
            }
        }),
        frame_label(
            m,
            status_frame(
                flags,
                media_type,
                media_width,
                media_length,
                status_type,
                phase_type,
                notification,
            ),
        ) == match label_type_of_bytes(media_type, media_width, media_length) {
            None => Ok(None),
            Some(t) => match resolve_label(m, t) {
                Ok(l) => Ok(Some(l)),
                Err(e) => Err(e),
            },
        },
{
    let d = status_frame(
        flags,
        media_type,
        media_width,
        media_length,
        status_type,
        phase_type,
        notification,
    );
    assert(d[OFFSET_ERROR_INFO_1 as int] as int + 256 * d[OFFSET_ERROR_INFO_2 as int] as int
        == flags as int);
}

/// Every defined status, phase and notification code decodes to its own
/// variant, and every other byte is kept in an `Unknown` variant.
pub proof fn lemma_unknown_codes_preserved(b: u8)
    ensures
        status_type_of(b) matches StatusType::Unknown(x) ==> x == b,
        phase_type_of(b) matches PhaseType::Unknown(x) ==> x == b,
        notification_of(b) matches Some(Notification::Unknown(x)) ==> x == b,
        notification_of(b) is None <==> b == 0,
{
}

/// A well-formed frame whose error word is nonzero never decodes to empty
/// error flags, whichever bits are set.
pub proof fn lemma_nonzero_error_word_kept(m: Model, d: Seq<u8>)
    requires
        le_u16(d[OFFSET_ERROR_INFO_1 as int], d[OFFSET_ERROR_INFO_2 as int]) != 0,
    ensures
        decode_status_spec(m, d) matches Ok(st) ==> st.error_flags.bits != 0,
{
}

} // verus!
