use app_image::handler::{select_handler, BuildMode, Color, HandlerVariant, Point};
use app_image::image::{assemble, BuildConfig, ImageUnit};
use app_image::sig::{ParamShape, SigError, SignatureShape, TypeShape};

fn byte_slice_param() -> ParamShape {
    ParamShape::Typed {
        ty: TypeShape::Reference {
            elem: Box::new(TypeShape::Slice {
                elem: Box::new(TypeShape::Named { segments: vec!["u8".to_string()] }),
            }),
        },
    }
}

fn config() -> BuildConfig {
    BuildConfig {
        name: "Hi".to_string(),
        api_level: 1,
        icon: vec![0x10, 0x20, 0x30, 0x40],
        external_data: None,
    }
}

#[test]
fn full_transform_on_a_valid_entry() {
    let sig = SignatureShape { params: vec![byte_slice_param()] };
    let unit: ImageUnit = assemble(sig, config(), BuildMode::Release).unwrap();

    assert_eq!(unit.app_name.bytes, vec![0x48, 0x69, 0x00]);
    assert_eq!(unit.app_name.byte_length, 3);
    assert_eq!(unit.api_level.bytes, vec![1, 0, 0, 0]);
    assert_eq!(unit.api_level.byte_length, 4);
    assert_eq!(unit.app_icon.byte_length, 4);
    assert_eq!(unit.app_icon.bytes, vec![0x10, 0x20, 0x30, 0x40]);
    assert_eq!(unit.entry_signature.params.len(), 0);
    assert_eq!(unit.handler, HandlerVariant::Silent);
}

#[test]
fn assemble_propagates_the_validation_diagnostic() {
    let sig = SignatureShape { params: vec![] };
    let r = assemble(sig, config(), BuildMode::Debug);
    assert!(matches!(r, Err(SigError::WrongParamCount { found: 0 })));

    let sig = SignatureShape { params: vec![ParamShape::Typed { ty: TypeShape::Opaque }] };
    let r = assemble(sig, config(), BuildMode::Debug);
    assert!(matches!(r, Err(SigError::NotByteSlice)));
}

#[test]
fn debug_mode_selects_the_diagnostic_handler() {
    let h = select_handler(BuildMode::Debug);
    assert_eq!(
        h,
        HandlerVariant::Diagnostic {
            message_position: Point { x: 0, y: 0 },
            location_position: Point { x: 0, y: 40 },
            foreground: Color { red: 255, green: 0, blue: 0 },
            background: Color { red: 255, green: 255, blue: 255 },
        }
    );
}

#[test]
fn release_mode_selects_the_silent_handler() {
    assert_eq!(select_handler(BuildMode::Release), HandlerVariant::Silent);
}

#[test]
fn handler_selection_depends_on_mode_alone() {
    // Two assemblies differing in everything but the mode select the same
    // handler; two differing only in mode select different ones.
    let sig_a = SignatureShape { params: vec![byte_slice_param()] };
    let unit_a = assemble(sig_a, config(), BuildMode::Debug).unwrap();

    let sig_b = SignatureShape { params: vec![byte_slice_param()] };
    let other = BuildConfig {
        name: "Entirely different".to_string(),
        api_level: 99,
        icon: vec![],
        external_data: Some("extra.bin".to_string()),
    };
    let unit_b = assemble(sig_b, other, BuildMode::Debug).unwrap();
    assert_eq!(unit_a.handler, unit_b.handler);

    let sig_c = SignatureShape { params: vec![byte_slice_param()] };
    let unit_c = assemble(sig_c, config(), BuildMode::Release).unwrap();
    assert_ne!(unit_a.handler, unit_c.handler);
}
