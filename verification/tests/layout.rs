use std::io::{Error, ErrorKind};
use std::path::{Path, PathBuf};

use rayforce_adapter::error::RayforceAdapterError;
use rayforce_adapter::layout::TxLogLayout;
use rayforce_adapter::path::path_to_cstring;

#[test]
fn layout_names_the_tables_and_the_symbol_file() {
    let layout = TxLogLayout::new("/var/log/app");
    assert_eq!(layout.root(), Path::new("/var/log/app"));
    assert_eq!(layout.tx_table_dir(), PathBuf::from("/var/log/app/tx"));
    assert_eq!(layout.datom_table_dir(), PathBuf::from("/var/log/app/datom"));
    assert_eq!(layout.sym_path(), PathBuf::from("/var/log/app/sym.ray"));
}

#[test]
fn layout_takes_whatever_turns_into_a_path() {
    let path = PathBuf::from("relative/root");
    assert_eq!(TxLogLayout::new(&path).root(), Path::new("relative/root"));
    assert_eq!(TxLogLayout::new(path.clone()).root(), path.as_path());
    assert_eq!(TxLogLayout::new(String::from("x")).tx_table_dir(), PathBuf::from("x/tx"));
    assert_eq!(TxLogLayout::new("").sym_path(), PathBuf::from("sym.ray"));
}

#[test]
fn layout_clone_has_the_same_root() {
    let layout = TxLogLayout::new("/a/b");
    assert_eq!(layout.clone().root(), Path::new("/a/b"));
}

#[test]
fn ensure_passes_on_the_outcome() {
    let layout = TxLogLayout::new("/a/b");
    assert!(layout.ensure(Ok(())).is_ok());
    match layout.ensure(Err(Error::new(ErrorKind::PermissionDenied, "no"))) {
        Err(RayforceAdapterError::CreateDir { path, source }) => {
            assert_eq!(path, PathBuf::from("/a/b"));
            assert_eq!(source.kind(), ErrorKind::PermissionDenied);
        }
        other => panic!("{:?}", other),
    }
}

#[test]
fn cstring_is_the_text_and_a_closing_zero() {
    let path = PathBuf::from("a/é");
    assert_eq!(path_to_cstring(&path).unwrap(), vec![b'a', b'/', 0xc3, 0xa9, 0]);
    assert_eq!(path_to_cstring(&PathBuf::from("")).unwrap(), vec![0]);
}

#[test]
fn cstring_refuses_an_interior_zero() {
    for text in ["\0", "a\0", "\0a", "a\0b"] {
        match path_to_cstring(&PathBuf::from(text)) {
            Err(RayforceAdapterError::NulPath(refused)) => assert_eq!(refused, text),
            other => panic!("{:?}", other),
        }
    }
}

#[test]
fn ordinary_layouts_are_usable() {
    for root in ["/var/log/app", "relative", "", "/", "a/tx", "x/datom.new", "sym.ray"] {
        assert!(TxLogLayout::new(root).is_usable(), "{}", root);
    }
}

#[test]
fn layout_with_a_zero_byte_is_not_usable() {
    assert!(!TxLogLayout::new("/da\0ta").is_usable());
}
