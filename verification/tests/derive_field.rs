use kernel::macros::field::{has_field, handle_struct, DeriveError, DeriveItem, FieldDecl, StructFields};

fn field(marked: bool) -> FieldDecl {
    FieldDecl { marked, named: true }
}

#[test]
fn marked_fields_get_impls_in_order() {
    let item = DeriveItem::Struct(StructFields::Named(vec![field(true), field(false), field(true)]));
    assert_eq!(Ok(vec![0, 2]), has_field(&item));
}

#[test]
fn struct_without_marked_fields_gets_no_impl() {
    let fields = StructFields::Named(vec![field(false), field(false)]);
    assert_eq!(Ok(vec![]), handle_struct(&fields));
    assert_eq!(Ok(vec![]), handle_struct(&StructFields::Named(vec![])));
}

#[test]
fn unnamed_field_gets_no_impl() {
    let fields = StructFields::Named(vec![FieldDecl { marked: true, named: false }, field(true)]);
    assert_eq!(Ok(vec![1]), handle_struct(&fields));
}

#[test]
fn tuple_and_unit_structs_are_refused() {
    assert_eq!(Err(DeriveError::NotNamedFields), has_field(&DeriveItem::Struct(StructFields::Unnamed)));
    assert_eq!(Err(DeriveError::NotNamedFields), handle_struct(&StructFields::Unit));
}

#[test]
fn enums_and_unions_are_refused() {
    assert_eq!(Err(DeriveError::NotStruct), has_field(&DeriveItem::Enum));
    assert_eq!(Err(DeriveError::NotStruct), has_field(&DeriveItem::Union));
}

#[test]
fn refusal_messages() {
    assert_eq!(
        "`#[derive(HasField)]` only supports structs with named fields",
        DeriveError::NotNamedFields.message()
    );
    assert_eq!("`#[derive(HasField)]` only supports structs", DeriveError::NotStruct.message());
}
