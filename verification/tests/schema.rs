use pcd_tool::error::ConvertError;
use pcd_tool::opts::VelodyneReturnMode;
use pcd_tool::schema::{find_field, intensity_index, xyz_indices, FieldDef, FieldKind};
use pcd_tool::types::ReturnModeKind;

fn field(name: &str, kind: FieldKind, count: u64) -> FieldDef {
    FieldDef {
        name: name.to_string(),
        kind,
        count,
    }
}

fn xyz_schema() -> Vec<FieldDef> {
    vec![
        field("x", FieldKind::F32, 1),
        field("y", FieldKind::F32, 1),
        field("z", FieldKind::F32, 1),
        field("rgb", FieldKind::U32, 1),
    ]
}

#[test]
fn find_field_first_match() {
    let fields = xyz_schema();
    assert_eq!(find_field(&fields, "x"), Some(0));
    assert_eq!(find_field(&fields, "rgb"), Some(3));
    assert_eq!(find_field(&fields, "intensity"), None);
}

#[test]
fn xyz_indices_of_a_full_schema() {
    assert_eq!(xyz_indices(&xyz_schema()), Ok((0, 1, 2)));
}

#[test]
fn xyz_indices_missing_coordinate() {
    let fields = vec![
        field("x", FieldKind::F32, 1),
        field("z", FieldKind::F32, 1),
    ];
    assert_eq!(xyz_indices(&fields), Err(ConvertError::MissingField));
    assert_eq!(xyz_indices(&Vec::new()), Err(ConvertError::MissingField));
}

#[test]
fn intensity_found_when_single_valued() {
    let fields = vec![
        field("x", FieldKind::F32, 1),
        field("intensity", FieldKind::U8, 1),
    ];
    assert_eq!(intensity_index(&fields), Some(1));
}

#[test]
fn intensity_passed_over_when_repeated() {
    let fields = vec![
        field("x", FieldKind::F32, 1),
        field("intensity", FieldKind::U8, 3),
    ];
    assert_eq!(intensity_index(&fields), None);
}

#[test]
fn intensity_absent() {
    assert_eq!(intensity_index(&xyz_schema()), None);
}

#[test]
fn return_mode_names() {
    assert_eq!(
        VelodyneReturnMode::from_str("strongest"),
        Some(VelodyneReturnMode(ReturnModeKind::Strongest))
    );
    assert_eq!(
        VelodyneReturnMode::from_str("last"),
        Some(VelodyneReturnMode(ReturnModeKind::Last))
    );
    assert_eq!(
        VelodyneReturnMode::from_str("dual"),
        Some(VelodyneReturnMode(ReturnModeKind::Dual))
    );
    assert_eq!(VelodyneReturnMode::from_str("both"), None);
    assert_eq!(VelodyneReturnMode::from_str(""), None);
}
