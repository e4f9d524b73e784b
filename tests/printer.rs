use weight_wb::attach::{
    flush_command, initialize_command, select_device, select_interface, AttachError, DeviceIds,
    Endpoint,
};
use weight_wb::label::{Label, LabelType, UnsupportedMedia};
use weight_wb::model::{classify_product, Model, ProductKind, UnknownModel, VENDOR_ID};
use weight_wb::print::{encode_line, print_commands, BitWriter, GrayBitmap, PrintConfig, PrintError, PrintPriority};
use weight_wb::status::{
    decode_status, status_request, ErrorFlags, Notification, PhaseType, Status, StatusError,
    StatusType, COVER_OPEN, NO_MEDIA,
};

const ALL_MODELS: [Model; 10] = [
    Model::BrotherQL500,
    Model::BrotherQL550,
    Model::BrotherQL560,
    Model::BrotherQL570,
    Model::BrotherQL580N,
    Model::BrotherQL600,
    Model::BrotherQL650TD,
    Model::BrotherQL700,
    Model::BrotherQL1050,
    Model::BrotherQL1060N,
];

fn bit(payload: &[u8], i: usize) -> bool {
    (payload[i / 8] >> (7 - i % 8)) & 1 == 1
}

fn frame(flags: u16, ty: u8, width: u8, length: u8, st: u8, ph: u8, notif: u8) -> Vec<u8> {
    let mut d = vec![0u8; 32];
    d[0] = 0x80;
    d[1] = 0x20;
    d[8] = (flags & 0xff) as u8;
    d[9] = (flags >> 8) as u8;
    d[10] = width;
    d[11] = ty;
    d[17] = length;
    d[18] = st;
    d[19] = ph;
    d[22] = notif;
    d
}

#[test]
fn product_ids_map_to_models() {
    assert_eq!(Model::from_product_id(0x2015), Some(Model::BrotherQL500));
    assert_eq!(Model::from_product_id(0x20c0), Some(Model::BrotherQL600));
    assert_eq!(Model::from_product_id(0x2042), Some(Model::BrotherQL700));
    assert_eq!(Model::from_product_id(0x202a), Some(Model::BrotherQL1060N));
    for m in ALL_MODELS {
        assert_eq!(Model::from_product_id(m.product_id()), Some(m));
    }
}

#[test]
fn unknown_product_ids_never_resolve() {
    for pid in [0x0000u16, 0x2049, 0x2014, 0x2030, 0x20c1, 0xffff] {
        assert_eq!(Model::from_product_id(pid), None);
    }
    let known: Vec<u16> = ALL_MODELS.iter().map(|m| m.product_id()).collect();
    for pid in 0..=u16::MAX {
        if !known.contains(&pid) {
            assert_eq!(Model::from_product_id(pid), None);
        }
    }
}

#[test]
fn mass_storage_mode_is_flagged() {
    assert_eq!(classify_product(0x2049), ProductKind::MassStorage);
    assert_eq!(classify_product(0x1234), ProductKind::Unknown);
    assert_eq!(classify_product(0x2028), ProductKind::Printer(Model::BrotherQL570));
}

#[test]
fn model_names_parse() {
    assert_eq!(Model::from_name("BrotherQL600"), Ok(Model::BrotherQL600));
    assert_eq!(Model::from_name("QL700"), Ok(Model::BrotherQL700));
    assert_eq!(Model::from_name("580N"), Ok(Model::BrotherQL580N));
    assert_eq!(Model::from_name("brotherql650td"), Ok(Model::BrotherQL650TD));
    assert_eq!(Model::from_name("BROTHER1060n"), Ok(Model::BrotherQL1060N));
    assert_eq!(Model::from_name("QL-600"), Err(UnknownModel));
    assert_eq!(Model::from_name(""), Err(UnknownModel));
    assert_eq!(Model::from_name("Brother"), Err(UnknownModel));
    assert_eq!(Model::from_name("QL5000"), Err(UnknownModel));
}

#[test]
fn model_properties() {
    assert_eq!(Model::BrotherQL570.line_width(), 90);
    assert_eq!(Model::BrotherQL1050.line_width(), 162);
    assert!(Model::BrotherQL1060N.is_wide());
    assert!(!Model::BrotherQL700.is_wide());
    assert_eq!(Model::BrotherQL580N.display_name(), "Brother QL-580N");
    assert_eq!(Model::BrotherQL650TD.number(), b"650TD".to_vec());
}

#[test]
fn continuous_labels_resolve() {
    let l = Label::resolve(Model::BrotherQL700, LabelType::Continuous { width: 62 }).unwrap();
    assert_eq!(l.printable_dots_width, 696);
    assert_eq!(l.printable_dots_length, None);
    assert_eq!(l.margin_dots_right, 12);
    assert_eq!(l.margin_dots_length, 35);
    let w = Label::resolve(Model::BrotherQL1050, LabelType::Continuous { width: 62 }).unwrap();
    assert_eq!(w.margin_dots_right, 56);
    let n = Label::resolve(Model::BrotherQL500, LabelType::Continuous { width: 12 }).unwrap();
    assert_eq!((n.printable_dots_width, n.margin_dots_right), (106, 29));
    let nw = Label::resolve(Model::BrotherQL1060N, LabelType::Continuous { width: 12 }).unwrap();
    assert_eq!((nw.printable_dots_width, nw.margin_dots_right), (106, 74));
}

#[test]
fn die_cut_labels_resolve() {
    let l = Label::resolve(Model::BrotherQL700, LabelType::DieCut { width: 62, length: 29 }).unwrap();
    assert_eq!(l.printable_dots_width, 696);
    assert_eq!(l.printable_dots_length, Some(271));
    assert_eq!(l.margin_dots_right, 12);
    assert_eq!(l.margin_dots_length, 0);
    let s = Label::resolve(Model::BrotherQL570, LabelType::DieCut { width: 23, length: 23 }).unwrap();
    assert_eq!((s.printable_dots_width, s.printable_dots_length, s.margin_dots_right), (236, Some(202), 42));
    let b = Label::resolve(Model::BrotherQL1050, LabelType::DieCut { width: 102, length: 152 }).unwrap();
    assert_eq!((b.printable_dots_width, b.printable_dots_length, b.margin_dots_right), (1164, Some(1660), 56));
}

#[test]
fn unknown_media_is_an_error() {
    let t = LabelType::Continuous { width: 99 };
    assert_eq!(Label::resolve(Model::BrotherQL700, t), Err(UnsupportedMedia { model: Model::BrotherQL700, ty: t }));
    let d = LabelType::DieCut { width: 62, length: 30 };
    assert!(Label::resolve(Model::BrotherQL700, d).is_err());
    // Wide-only media on a standard head.
    assert!(Label::resolve(Model::BrotherQL700, LabelType::Continuous { width: 102 }).is_err());
    assert!(Label::resolve(Model::BrotherQL600, LabelType::DieCut { width: 102, length: 51 }).is_err());
}

#[test]
fn resolved_widths_fit_the_head() {
    for m in ALL_MODELS {
        for w in 0..=255u8 {
            let t = LabelType::Continuous { width: w };
            if let Ok(l) = Label::resolve(m, t) {
                assert_eq!(Label::resolve(m, t), Ok(l));
                assert!(l.printable_dots_width <= 8 * m.line_width() as u32);
                assert!(2 * l.margin_dots_right + l.printable_dots_width <= 8 * m.line_width() as u32);
            }
            for len in 0..=255u8 {
                let t = LabelType::DieCut { width: w, length: len };
                if let Ok(l) = Label::resolve(m, t) {
                    assert!(l.printable_dots_width <= 8 * m.line_width() as u32);
                    assert!(l.printable_dots_length.is_some());
                }
            }
        }
    }
}

#[test]
fn label_type_bytes() {
    assert_eq!(LabelType::from_bytes(0x0a, 62, 0), Some(LabelType::Continuous { width: 62 }));
    assert_eq!(LabelType::from_bytes(0x0b, 62, 29), Some(LabelType::DieCut { width: 62, length: 29 }));
    assert_eq!(LabelType::from_bytes(0x00, 62, 29), None);
    assert_eq!(LabelType::from_bytes(0x4a, 62, 29), None);
    assert_eq!(LabelType::Continuous { width: 29 }.as_bytes(), (0x0a, 29, 0));
    assert_eq!(LabelType::DieCut { width: 17, length: 54 }.as_bytes(), (0x0b, 17, 54));
}

#[test]
fn status_frame_decodes() {
    assert_eq!(status_request(), vec![0x1b, 0x69, 0x53]);
    let d = frame(0x1001, 0x0b, 62, 29, 0x06, 0x01, 0x03);
    let s = decode_status(Model::BrotherQL700, &d).unwrap();
    let expected = Status {
        error_flags: ErrorFlags { bits: NO_MEDIA | COVER_OPEN },
        label: Some(Label::resolve(Model::BrotherQL700, LabelType::DieCut { width: 62, length: 29 }).unwrap()),
        status_type: StatusType::PhaseChange,
        phase_type: PhaseType::Printing,
        notification: Some(Notification::CoolingStart),
    };
    assert_eq!(s, expected);
    assert!(s.error_flags.contains(COVER_OPEN));
    assert!(!s.error_flags.is_empty());
}

#[test]
fn status_frame_keeps_unknown_codes() {
    let d = frame(0x0008, 0x00, 0, 0, 0x42, 0x07, 0x09);
    let s = decode_status(Model::BrotherQL570, &d).unwrap();
    // Bit 3 has no name, but it is kept: any nonzero word is an error.
    assert_eq!(s.error_flags, ErrorFlags { bits: 0x0008 });
    assert!(!s.error_flags.is_empty());
    assert_eq!(ErrorFlags::from_bits(0xabcd).bits(), 0xabcd);
    assert_eq!(s.label, None);
    assert_eq!(s.status_type, StatusType::Unknown(0x42));
    assert_eq!(s.phase_type, PhaseType::Unknown(0x07));
    assert_eq!(s.notification, Some(Notification::Unknown(0x09)));
    let quiet = decode_status(Model::BrotherQL570, &frame(0, 0x0a, 62, 0, 0, 0, 0)).unwrap();
    assert_eq!(quiet.notification, None);
    assert_eq!(quiet.status_type, StatusType::StatusReply);
    assert_eq!(quiet.phase_type, PhaseType::Waiting);
}

#[test]
fn status_frame_errors() {
    let d = frame(0, 0x0a, 62, 0, 0, 0, 0);
    assert_eq!(decode_status(Model::BrotherQL700, &d[..31]), Err(StatusError::WrongResponseSizeUSB(31)));
    let mut m = d.clone();
    m[0] = 0x81;
    assert_eq!(decode_status(Model::BrotherQL700, &m), Err(StatusError::WrongPrintHeadMark(0x81)));
    let mut h = d.clone();
    h[1] = 0x10;
    assert_eq!(decode_status(Model::BrotherQL700, &h), Err(StatusError::WrongResponseSizeHeader(0x10)));
    let bad = frame(0, 0x0a, 99, 0, 0, 0, 0);
    assert_eq!(
        decode_status(Model::BrotherQL700, &bad),
        Err(StatusError::InvalidLabel(UnsupportedMedia {
            model: Model::BrotherQL700,
            ty: LabelType::Continuous { width: 99 }
        }))
    );
}

#[test]
fn bit_writer_packs_msb_first() {
    let mut w = BitWriter::new(vec![0u8; 2]);
    for b in [true, false, true, true, false, false, false, false, true] {
        w.write_bit(b);
    }
    assert_eq!(w.into_bytes(), vec![0b1011_0000, 0b1000_0000]);
}

#[test]
fn dark_row_packs_after_margin() {
    let row = vec![0u8; 10];
    let cmd = encode_line(&row, 12, 90, false);
    assert_eq!(cmd.len(), 93);
    assert_eq!(&cmd[..3], &[0x67, 0x00, 90]);
    let payload = &cmd[3..];
    for i in 0..720 {
        assert_eq!(bit(payload, i), (12..22).contains(&i), "bit {}", i);
    }
    assert_eq!(payload[0], 0x00);
    assert_eq!(payload[1], 0x0f);
    assert_eq!(payload[2], 0xfc);
}

#[test]
fn pixels_are_scanned_right_to_left() {
    // Only the leftmost pixel is dark: it is the last pixel bit.
    let row = vec![0x00u8, 0xff, 0xff, 0xff];
    let cmd = encode_line(&row, 0, 1, false);
    assert_eq!(cmd, vec![0x67, 0x00, 1, 0b0001_0000]);
    // Mid-grey is light; just below it is dark.
    let cmd = encode_line(&[0x80, 0x7f], 0, 1, false);
    assert_eq!(cmd[3], 0b1000_0000);
}

#[test]
fn inversion_complements_pixel_bits() {
    let row: Vec<u8> = (0..40u32).map(|i| ((i * 37) % 256) as u8).collect();
    let plain = encode_line(&row, 6, 90, false);
    let inverted = encode_line(&row, 6, 90, true);
    for i in 0..720 {
        if (6..46).contains(&i) {
            assert_eq!(bit(&inverted[3..], i), !bit(&plain[3..], i));
        } else {
            assert!(!bit(&inverted[3..], i) && !bit(&plain[3..], i));
        }
    }
}

fn status_with(label: Option<Label>, flags: u16) -> Status {
    Status {
        error_flags: ErrorFlags { bits: flags },
        label,
        status_type: StatusType::StatusReply,
        phase_type: PhaseType::Waiting,
        notification: None,
    }
}

fn bitmap(width: u32, height: u32, luma: u8) -> GrayBitmap {
    GrayBitmap::new(width, height, vec![luma; (width * height) as usize]).unwrap()
}

#[test]
fn bitmap_size_is_checked() {
    assert!(GrayBitmap::new(3, 2, vec![0; 6]).is_some());
    assert!(GrayBitmap::new(3, 2, vec![0; 5]).is_none());
}

#[test]
fn print_checks_dimensions() {
    let model = Model::BrotherQL700;
    let cfg = PrintConfig::default();
    let cont = Label::resolve(model, LabelType::Continuous { width: 12 }).unwrap();
    let die = Label::resolve(model, LabelType::DieCut { width: 23, length: 23 }).unwrap();
    // Continuous, matching: any height.
    assert!(print_commands(&status_with(Some(cont), 0), &bitmap(106, 3, 0), &cfg, model).is_ok());
    // Continuous, mismatching width.
    assert_eq!(
        print_commands(&status_with(Some(cont), 0), &bitmap(105, 3, 0), &cfg, model).err(),
        Some(PrintError::WrongImageDimensions { image_width: 105, image_height: 3, label_width: 106, label_length: None })
    );
    // Die-cut, matching.
    assert!(print_commands(&status_with(Some(die), 0), &bitmap(236, 202, 0), &cfg, model).is_ok());
    // Die-cut, mismatching height.
    assert_eq!(
        print_commands(&status_with(Some(die), 0), &bitmap(236, 201, 0), &cfg, model).err(),
        Some(PrintError::WrongImageDimensions { image_width: 236, image_height: 201, label_width: 236, label_length: Some(202) })
    );
    // High resolution doubles the rows.
    let hi = PrintConfig { high_res: true, ..PrintConfig::default() };
    assert!(print_commands(&status_with(Some(die), 0), &bitmap(236, 404, 0), &hi, model).is_ok());
    assert!(print_commands(&status_with(Some(die), 0), &bitmap(236, 202, 0), &hi, model).is_err());
}

#[test]
fn print_refuses_errors_and_missing_media() {
    let model = Model::BrotherQL700;
    let cfg = PrintConfig::default();
    let cont = Label::resolve(model, LabelType::Continuous { width: 12 }).unwrap();
    assert_eq!(
        print_commands(&status_with(Some(cont), COVER_OPEN), &bitmap(106, 1, 0), &cfg, model).err(),
        Some(PrintError::StatusErrorFlags(ErrorFlags { bits: COVER_OPEN }))
    );
    // An error bit without a name stops the job too.
    assert_eq!(
        print_commands(&status_with(Some(cont), 0x0008), &bitmap(106, 1, 0), &cfg, model).err(),
        Some(PrintError::StatusErrorFlags(ErrorFlags { bits: 0x0008 }))
    );
    assert_eq!(
        print_commands(&status_with(None, 0), &bitmap(106, 1, 0), &cfg, model).err(),
        Some(PrintError::NoMedia)
    );
    assert_eq!(PrintError::from_status(StatusError::WrongPrintHeadMark(1)), PrintError::StatusError(StatusError::WrongPrintHeadMark(1)));
}

#[test]
fn print_job_bytes() {
    let model = Model::BrotherQL700;
    let cfg = PrintConfig::default();
    let cont = Label::resolve(model, LabelType::Continuous { width: 12 }).unwrap();
    let cmds = print_commands(&status_with(Some(cont), 0), &bitmap(106, 2, 0x00), &cfg, model).unwrap();
    assert_eq!(cmds.len(), 7 + 2 + 1);
    assert_eq!(cmds[0], vec![0x1b, 0x69, 0x61, 0x01]);
    assert_eq!(cmds[1], vec![0x1b, 0x69, 0x7a, 0xce, 0x0a, 12, 0, 2, 0, 0, 0, 0, 0]);
    assert_eq!(cmds[2], vec![0x1b, 0x69, 0x4d, 0x40]);
    assert_eq!(cmds[3], vec![0x1b, 0x69, 0x41, 0x01]);
    assert_eq!(cmds[4], vec![0x1b, 0x69, 0x4b, 0x10]);
    assert_eq!(cmds[5], vec![0x1b, 0x69, 0x64, 35, 0]);
    assert_eq!(cmds[6], vec![0x4d, 0x00]);
    for line in &cmds[7..9] {
        assert_eq!(line.len(), 93);
        for i in 0..720 {
            assert_eq!(bit(&line[3..], i), (29..135).contains(&i));
        }
    }
    assert_eq!(cmds[9], vec![0x1a]);

    let speed = PrintConfig { priority: PrintPriority::Speed, auto_cut: false, high_res: true, invert: true };
    let die = Label::resolve(model, LabelType::DieCut { width: 23, length: 23 }).unwrap();
    let cmds = print_commands(&status_with(Some(die), 0), &bitmap(236, 404, 0xff), &speed, model).unwrap();
    assert_eq!(cmds.len(), 6 + 404 + 1);
    assert_eq!(cmds[1], vec![0x1b, 0x69, 0x7a, 0x8e, 0x0b, 23, 23, 0x94, 0x01, 0, 0, 0, 0]);
    assert_eq!(cmds[2], vec![0x1b, 0x69, 0x4d, 0x00]);
    assert_eq!(cmds[3], vec![0x1b, 0x69, 0x4b, 0x50]);
    assert_eq!(cmds[4], vec![0x1b, 0x69, 0x64, 0, 0]);
    // Inverted white pixels print.
    assert!(bit(&cmds[6][3..], 42));
    assert!(!bit(&cmds[6][3..], 41));
}

#[test]
fn device_selection() {
    let devices = vec![
        None,
        Some(DeviceIds { vendor_id: 0x1234, product_id: 0x2042 }),
        Some(DeviceIds { vendor_id: VENDOR_ID, product_id: 0x2049 }),
        Some(DeviceIds { vendor_id: VENDOR_ID, product_id: 0x2042 }),
        Some(DeviceIds { vendor_id: VENDOR_ID, product_id: 0x2020 }),
    ];
    assert_eq!(select_device(&devices, None), Some((3, Model::BrotherQL700)));
    assert_eq!(select_device(&devices, Some(Model::BrotherQL1050)), Some((4, Model::BrotherQL1050)));
    assert_eq!(select_device(&devices, Some(Model::BrotherQL600)), None);
    assert_eq!(select_device(&vec![], None), None);
}

#[test]
fn interface_selection() {
    let eps = vec![
        Endpoint { bulk: false, direction_in: true, address: 0x83 },
        Endpoint { bulk: true, direction_in: true, address: 0x81 },
        Endpoint { bulk: true, direction_in: false, address: 0x02 },
    ];
    assert_eq!(select_interface(Some(0), Some(&eps)), Ok((0, 0x81, 0x02)));
    assert_eq!(select_interface(None, Some(&eps)), Err(AttachError::NoInterface));
    assert_eq!(select_interface(Some(0), None), Err(AttachError::NoInterfaceDescriptor));
    assert_eq!(select_interface(Some(1), Some(&eps[2..].to_vec())), Err(AttachError::NoInEndpoint));
    assert_eq!(select_interface(Some(1), Some(&eps[..2].to_vec())), Err(AttachError::NoOutEndpoint));
    assert_eq!(flush_command(), vec![0u8; 350]);
    assert_eq!(initialize_command(), vec![0x1b, 0x40]);
}
