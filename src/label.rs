use vstd::prelude::*;

use crate::model::{is_wide, line_width_of, Model};

verus! {

/// Media type byte of continuous tape.
pub const MEDIA_CONTINUOUS: u8 = 0x0a;

/// Media type byte of die-cut labels.
pub const MEDIA_DIE_CUT: u8 = 0x0b;

/// The loaded media as the printer reports it, sizes in millimetres.
#[derive(Copy, Clone, Debug, PartialEq, Eq, Structural)]
pub enum LabelType {
    Continuous { width: u8 },
    DieCut { width: u8, length: u8 },
}

/// Printable geometry of a label on a given printer model, in dots.
#[derive(Copy, Clone, Debug, PartialEq, Eq, Structural)]
pub struct Label {
    pub ty: LabelType,
    pub printable_dots_width: u32,
    /// `None` for continuous tape, which is bounded only by how much is fed.
    pub printable_dots_length: Option<u32>,
    /// Zero pins to leave on the right of each raster line.
    pub margin_dots_right: u32,
    /// Feed margin sent before the raster lines.
    pub margin_dots_length: u16,
}

/// A combination of printer model and media that the geometry tables lack.
#[derive(Copy, Clone, Debug, PartialEq, Eq, Structural)]
pub struct UnsupportedMedia {
    pub model: Model,
    pub ty: LabelType,
}

/// The media a status frame describes: type byte, width and length bytes.
/// A zero or unknown type byte means that no usable media is loaded.
pub open spec fn label_type_of_bytes(ty: u8, width: u8, length: u8) -> Option<LabelType> {
    if ty == MEDIA_CONTINUOUS {
        Some(LabelType::Continuous { width })
    } else if ty == MEDIA_DIE_CUT {
        Some(LabelType::DieCut { width, length })
    } else {
        None
    }
}

/// The three bytes (type, width, length) that encode a media type on the wire.
pub open spec fn label_type_bytes(t: LabelType) -> (u8, u8, u8) {
    match t {
        LabelType::Continuous { width } => (MEDIA_CONTINUOUS, width, 0),
        LabelType::DieCut { width, length } => (MEDIA_DIE_CUT, width, length),
    }
}

/// Printable width and right margin of continuous tape of `width` mm, or
/// `None` where the tape is unknown or needs the wide head.
pub open spec fn continuous_geometry(width: u8, wide: bool) -> Option<(u32, u32)> {
    if width == 12 {
        Some((106, if wide { 74 } else { 29 }))
    } else if width == 29 {
        Some((306, if wide { 50 } else { 6 }))
    } else if width == 38 {
        Some((413, if wide { 56 } else { 12 }))
    } else if width == 50 {
        Some((554, if wide { 56 } else { 12 }))
    } else if width == 54 {
        Some((590, if wide { 44 } else { 0 }))
    } else if width == 62 {
        Some((696, if wide { 56 } else { 12 }))
    } else if width == 102 && wide {
        Some((1164, 56))
    } else {
        None
    }
}

/// Printable width, printable length and right margin of die-cut labels of
/// `width` x `length` mm, or `None` where they are unknown or need the wide
/// head.
pub open spec fn die_cut_geometry(width: u8, length: u8, wide: bool) -> Option<(u32, u32, u32)> {
    if width == 17 && length == 54 {
        Some((165, 566, if wide { 44 } else { 0 }))
    } else if width == 17 && length == 87 {
        Some((165, 956, if wide { 44 } else { 0 }))
    } else if width == 23 && length == 23 {
        Some((236, 202, if wide { 84 } else { 42 }))
    } else if width == 29 && length == 90 {
        Some((306, 991, if wide { 50 } else { 6 }))
    } else if width == 38 && length == 90 {
        Some((413, 991, if wide { 56 } else { 12 }))
    } else if width == 39 && length == 48 {
        Some((425, 495, if wide { 50 } else { 6 }))
    } else if width == 52 && length == 29 {
        Some((578, 271, if wide { 44 } else { 0 }))
    } else if width == 62 && length == 29 {
        Some((696, 271, if wide { 56 } else { 12 }))
    } else if width == 62 && length == 100 {
        Some((696, 1109, if wide { 56 } else { 12 }))
    } else if width == 102 && length == 51 && wide {
        Some((1164, 526, 56))
    } else if width == 102 && length == 152 && wide {
        Some((1164, 1660, 56))
    } else {
        None
    }
}

/// Feed margin of continuous tape, in dots.
pub const CONTINUOUS_FEED_MARGIN: u16 = 35;

/// The label that media `t` gives on printer `m`.
pub open spec fn resolve_label(m: Model, t: LabelType) -> Result<Label, UnsupportedMedia> {
    match t {
        LabelType::Continuous { width } => match continuous_geometry(width, is_wide(m)) {
            Some((w, r)) => Ok(
                Label {
                    ty: t,
                    printable_dots_width: w,
                    printable_dots_length: None,
                    margin_dots_right: r,
                    margin_dots_length: CONTINUOUS_FEED_MARGIN,
                },
            ),
            None => Err(UnsupportedMedia { model: m, ty: t }),
        },
        LabelType::DieCut { width, length } => match die_cut_geometry(
            width,
            length,
            is_wide(m),
        ) {
            Some((w, l, r)) => Ok(
                Label {
                    ty: t,
                    printable_dots_width: w,
                    printable_dots_length: Some(l),
                    margin_dots_right: r,
                    margin_dots_length: 0,
                },
            ),
            None => Err(UnsupportedMedia { model: m, ty: t }),
        },
    }
}

/// The label fits the print head of `m`: the right margin on both sides of
/// the printable width stays within the line's bits.
pub open spec fn fits_head(l: Label, m: Model) -> bool {
    2 * l.margin_dots_right + l.printable_dots_width <= 8 * line_width_of(m)
}

/// Every label the tables give is consistent with the model's print head, and
/// only die-cut media has a bounded printable length.
pub proof fn lemma_resolved_label_fits(m: Model, t: LabelType)
    ensures
        resolve_label(m, t) matches Ok(l) ==> {
            &&& l.printable_dots_width <= 8 * line_width_of(m)
            &&& fits_head(l, m)
            &&& l.ty == t
            &&& (l.printable_dots_length is None <==> t is Continuous)
        },
{
}

impl LabelType {
    /// Decodes the media type, width and length bytes of a status frame.
    pub fn from_bytes(ty: u8, width: u8, length: u8) -> (r: Option<LabelType>)
        ensures
            r == label_type_of_bytes(ty, width, length),
    {
        if ty == MEDIA_CONTINUOUS {
            Some(LabelType::Continuous { width })
        } else if ty == MEDIA_DIE_CUT {
            Some(LabelType::DieCut { width, length })
        } else {
            None
        }
    }

    /// Encodes the media type as its (type, width, length) bytes.
    pub fn as_bytes(&self) -> (r: (u8, u8, u8))
        ensures
            r == label_type_bytes(*self),
    {
        match *self {
            LabelType::Continuous { width } => (MEDIA_CONTINUOUS, width, 0),
            LabelType::DieCut { width, length } => (MEDIA_DIE_CUT, width, length),
        }
    }
}

/// Decoding the bytes of a media type gives the media type back.
pub proof fn lemma_label_type_round_trip(t: LabelType)
    ensures
        ({
            let (ty, w, l) = label_type_bytes(t);
            label_type_of_bytes(ty, w, l) == Some(t)
        }),
{
}

fn continuous_geometry_exec(width: u8, wide: bool) -> (r: Option<(u32, u32)>)
    ensures
        r == continuous_geometry(width, wide),
{
    match width {
        12 => Some((106, if wide { 74 } else { 29 })),
        29 => Some((306, if wide { 50 } else { 6 })),
        38 => Some((413, if wide { 56 } else { 12 })),
        50 => Some((554, if wide { 56 } else { 12 })),
        54 => Some((590, if wide { 44 } else { 0 })),
        62 => Some((696, if wide { 56 } else { 12 })),
        102 => if wide {
            Some((1164, 56))
        } else {
            None
        },
        _ => None,
    }
}

fn die_cut_geometry_exec(width: u8, length: u8, wide: bool) -> (r: Option<(u32, u32, u32)>)
    ensures
        r == die_cut_geometry(width, length, wide),
{
    match (width, length) {
        (17, 54) => Some((165, 566, if wide { 44 } else { 0 })),
        (17, 87) => Some((165, 956, if wide { 44 } else { 0 })),
        (23, 23) => Some((236, 202, if wide { 84 } else { 42 })),
        (29, 90) => Some((306, 991, if wide { 50 } else { 6 })),
        (38, 90) => Some((413, 991, if wide { 56 } else { 12 })),
        (39, 48) => Some((425, 495, if wide { 50 } else { 6 })),
        (52, 29) => Some((578, 271, if wide { 44 } else { 0 })),
        (62, 29) => Some((696, 271, if wide { 56 } else { 12 })),
        (62, 100) => Some((696, 1109, if wide { 56 } else { 12 })),
        (102, 51) => if wide {
            Some((1164, 526, 56))
        } else {
            None
        },
        (102, 152) => if wide {
            Some((1164, 1660, 56))
        } else {
            None
        },
        _ => None,
    }
}

impl Label {
    /// Looks up the geometry of media `ty` on printer `model`. A combination
    /// the tables lack is an error, never a default.
    pub fn resolve(model: Model, ty: LabelType) -> (r: Result<Label, UnsupportedMedia>)
        ensures
            r == resolve_label(model, ty),
            r matches Ok(l) ==> fits_head(l, model),
    {
        proof {
            lemma_resolved_label_fits(model, ty);
        }
        let wide = model.is_wide();
        match ty {
            LabelType::Continuous { width } => match continuous_geometry_exec(width, wide) {
                Some((w, r)) => Ok(
                    Label {
                        ty,
                        printable_dots_width: w,
                        printable_dots_length: None,
                        margin_dots_right: r,
                        margin_dots_length: CONTINUOUS_FEED_MARGIN,
                    },
                ),
                None => Err(UnsupportedMedia { model, ty }),
            },
            LabelType::DieCut { width, length } => match die_cut_geometry_exec(
                width,
                length,
                wide,
            ) {
                Some((w, l, r)) => Ok(
                    Label {
                        ty,
                        printable_dots_width: w,
                        printable_dots_length: Some(l),
                        margin_dots_right: r,
                        margin_dots_length: 0,
                    },
                ),
                None => Err(UnsupportedMedia { model, ty }),
            },
        }
    }
}

} // verus!
