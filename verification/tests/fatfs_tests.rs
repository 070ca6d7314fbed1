use msvisor::fatfs::{
    fatfs_close, fatfs_open, fatfs_read, fatfs_write, get_fs_image_path, FatfsService, OpenFlags,
};
use msvisor::io::{BytesReader, Read};

#[test]
fn fatfs_open_test() {
    let mut svc = FatfsService::new();
    let fd =
        fatfs_open(&mut svc, "new_file.txt", OpenFlags::o_creat()).expect("open file failed")
            as usize;
    assert!(svc.table_len() == fd + 1);
    let bytes = fatfs_read(&mut svc, fd as u32, 1024).expect("read failed");
    let mut buf = String::new();
    let mut reader = BytesReader::new(bytes);
    reader.read_to_string(&mut buf).expect("read failed");
    assert!(buf.is_empty());
}

#[test]
fn fatfs_write_test() {
    let mut svc = FatfsService::new();
    let fd = fatfs_open(&mut svc, "hello.txt", OpenFlags::o_creat()).expect("create file failed");
    assert!(fatfs_write(&mut svc, fd, &b"Hello World!".to_vec()).expect("write failed") > 0);
}

#[test]
fn filesystem_scenario() {
    let mut svc = FatfsService::new();
    let fd = fatfs_open(&mut svc, "f.txt", OpenFlags::o_creat()).expect("open file failed");
    assert_eq!(fd, 0);
    let n = fatfs_write(&mut svc, fd, &b"Hello World!".to_vec()).expect("write failed");
    assert_eq!(n, 12);
    let fd2 = fatfs_open(&mut svc, "f.txt", OpenFlags::empty()).expect("open file failed");
    let bytes = fatfs_read(&mut svc, fd2, 100).expect("read failed");
    assert_eq!(bytes, b"Hello World!".to_vec());
    fatfs_close(&mut svc, fd).expect("close failed");
    assert!(fatfs_read(&mut svc, fd, 1).is_err());
    assert!(fatfs_close(&mut svc, fd).is_err());
}

#[test]
fn open_missing_without_create_fails() {
    let mut svc = FatfsService::new();
    assert!(fatfs_open(&mut svc, "absent.txt", OpenFlags::empty()).is_err());
    assert_eq!(svc.table_len(), 0);
}

#[test]
fn create_existing_opens_it() {
    let mut svc = FatfsService::new();
    let fd = fatfs_open(&mut svc, "f.txt", OpenFlags::o_creat()).expect("open file failed");
    fatfs_write(&mut svc, fd, &b"abc".to_vec()).expect("write failed");
    let fd2 = fatfs_open(&mut svc, "f.txt", OpenFlags::o_creat()).expect("open file failed");
    let bytes = fatfs_read(&mut svc, fd2, 10).expect("read failed");
    assert_eq!(bytes, b"abc".to_vec());
}

#[test]
fn read_advances_cursor() {
    let mut svc = FatfsService::new();
    let fd = fatfs_open(&mut svc, "f.txt", OpenFlags::o_creat()).expect("open file failed");
    fatfs_write(&mut svc, fd, &b"abcdef".to_vec()).expect("write failed");
    let fd2 = fatfs_open(&mut svc, "f.txt", OpenFlags::empty()).expect("open file failed");
    assert_eq!(
        fatfs_read(&mut svc, fd2, 2).expect("read failed"),
        b"ab".to_vec()
    );
    assert_eq!(
        fatfs_read(&mut svc, fd2, 2).expect("read failed"),
        b"cd".to_vec()
    );
    assert_eq!(
        fatfs_read(&mut svc, fd2, 100).expect("read failed"),
        b"ef".to_vec()
    );
    assert_eq!(
        fatfs_read(&mut svc, fd2, 100).expect("read failed"),
        Vec::<u8>::new()
    );
}

#[test]
fn write_overwrites_at_cursor() {
    let mut svc = FatfsService::new();
    let fd = fatfs_open(&mut svc, "f.txt", OpenFlags::o_creat()).expect("open file failed");
    fatfs_write(&mut svc, fd, &b"abcdef".to_vec()).expect("write failed");
    let fd2 = fatfs_open(&mut svc, "f.txt", OpenFlags::o_creat()).expect("open file failed");
    fatfs_write(&mut svc, fd2, &b"XY".to_vec()).expect("write failed");
    let fd3 = fatfs_open(&mut svc, "f.txt", OpenFlags::empty()).expect("open file failed");
    assert_eq!(
        fatfs_read(&mut svc, fd3, 100).expect("read failed"),
        b"XYcdef".to_vec()
    );
}

#[test]
fn image_path_defaults() {
    assert_eq!(get_fs_image_path(None), "fs_images/fatfs.img");
    assert_eq!(
        get_fs_image_path(Some(String::from("images/disk.img"))),
        "images/disk.img"
    );
}
