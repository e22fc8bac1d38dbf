use unistd::{
    exec_error, fd_result, to_c_path, to_c_vector, unit_result, ExecArgs, OFlag, PivotRootArgs,
    SysError,
};

#[test]
fn fd_result_keeps_a_valid_descriptor() {
    assert_eq!(fd_result(5, 0), Ok(5));
    assert_eq!(fd_result(0, 9), Ok(0));
    assert_eq!(fd_result(i32::MAX, 0), Ok(i32::MAX));
}

#[test]
fn fd_result_turns_negative_returns_into_failures() {
    assert_eq!(fd_result(-1, 9), Err(SysError { errno: 9 }));
    assert_eq!(fd_result(i32::MIN, 24), Err(SysError { errno: 24 }));
    assert_eq!(fd_result(-2, 0), Err(SysError { errno: 0 }));
}

#[test]
fn unit_result_follows_the_sign_of_the_return() {
    assert_eq!(unit_result(0, 2), Ok(()));
    assert_eq!(unit_result(-1, 2), Err(SysError { errno: 2 }));
    assert_eq!(unit_result(i32::MIN as i64, 1), Err(SysError { errno: 1 }));
    assert_eq!(unit_result(i64::MIN, 1), Err(SysError { errno: 1 }));
}

#[test]
fn exec_error_is_a_failure_whatever_came_back() {
    assert_eq!(exec_error(-1, 2), SysError { errno: 2 });
    assert_eq!(exec_error(0, 13).errno(), 13);
}

#[test]
fn sys_error_carries_its_code() {
    let e = SysError::from_errno(110);
    assert_eq!(e.errno(), 110);
    assert_eq!(e, SysError { errno: 110 });
}

#[test]
fn oflag_keeps_its_mask() {
    let cloexec = OFlag::from_bits(0x80000);
    assert_eq!(cloexec.bits(), 0x80000);
    assert_eq!(OFlag::empty().bits(), 0);
    assert!(cloexec.contains(OFlag::empty()));
    assert!(!OFlag::empty().contains(cloexec));
    assert!(OFlag::from_bits(0x80800).contains(cloexec));
}

#[test]
fn to_c_path_appends_one_terminator() {
    assert_eq!(to_c_path(b"/tmp"), Ok(b"/tmp\0".to_vec()));
    assert_eq!(to_c_path(b""), Ok(vec![0u8]));
}

#[test]
fn to_c_path_refuses_a_zero_byte() {
    assert_eq!(to_c_path(b"a\0b"), Err(SysError { errno: 22 }));
    assert_eq!(to_c_path(b"abc\0"), Err(SysError { errno: 22 }));
    assert_eq!(to_c_path(b"\0"), Err(SysError { errno: 22 }));
}

#[test]
fn to_c_vector_keeps_the_order() {
    let items = vec![b"sh".to_vec(), b"-c".to_vec(), b"".to_vec()];
    let out = to_c_vector(&items).unwrap();
    assert_eq!(out, vec![b"sh\0".to_vec(), b"-c\0".to_vec(), b"\0".to_vec()]);
    assert_eq!(to_c_vector(&[]), Ok(vec![]));
}

#[test]
fn to_c_vector_refuses_any_item_with_a_zero_byte() {
    let items = vec![b"ok".to_vec(), b"b\0ad".to_vec()];
    assert_eq!(to_c_vector(&items), Err(SysError { errno: 22 }));
}

#[test]
fn exec_args_marshals_all_three_parts() {
    let args = vec![b"/bin/true".to_vec(), b"x".to_vec()];
    let env = vec![b"A=1".to_vec(), b"B=2".to_vec()];
    let a = ExecArgs::new(b"/bin/true", &args, &env).unwrap();
    assert_eq!(a.filename, b"/bin/true\0".to_vec());
    assert_eq!(a.args, vec![b"/bin/true\0".to_vec(), b"x\0".to_vec()]);
    assert_eq!(a.env, vec![b"A=1\0".to_vec(), b"B=2\0".to_vec()]);
}

#[test]
fn exec_args_with_empty_vectors() {
    let a = ExecArgs::new(b"/bin/true", &[], &[]).unwrap();
    assert_eq!(a.filename, b"/bin/true\0".to_vec());
    assert!(a.args.is_empty());
    assert!(a.env.is_empty());
}

#[test]
fn exec_args_refuses_a_zero_byte_anywhere() {
    let good = vec![b"x".to_vec()];
    let bad = vec![b"x\0y".to_vec()];
    assert_eq!(ExecArgs::new(b"/bin\0/true", &good, &good).err(), Some(SysError { errno: 22 }));
    assert_eq!(ExecArgs::new(b"/bin/true", &bad, &good).err(), Some(SysError { errno: 22 }));
    assert_eq!(ExecArgs::new(b"/bin/true", &good, &bad).err(), Some(SysError { errno: 22 }));
}

#[test]
fn pivot_root_args_marshals_both_paths() {
    let a = PivotRootArgs::new(b"/new", b"/new/old").unwrap();
    assert_eq!(a.new_root, b"/new\0".to_vec());
    assert_eq!(a.put_old, b"/new/old\0".to_vec());
    assert_eq!(PivotRootArgs::new(b"/n\0", b"/old").err(), Some(SysError { errno: 22 }));
    assert_eq!(PivotRootArgs::new(b"/new", b"\0").err(), Some(SysError { errno: 22 }));
}
