use ep_start::icon::{first_image, read_u16, read_u32};

fn icon_with_image(size: u32, offset: u32, total: usize) -> Vec<u8> {
    let mut data = vec![0u8; total];
    data[2] = 1;
    data[4] = 1;
    data[14..18].copy_from_slice(&size.to_le_bytes());
    data[18..22].copy_from_slice(&offset.to_le_bytes());
    data
}

#[test]
fn rejects_truncated_icon() {
    assert!(first_image(&[0, 0, 1, 0, 1, 0]).is_err());
}

#[test]
fn returns_the_bytes_of_the_first_image() {
    let mut data = icon_with_image(4, 22, 26);
    data[22..26].copy_from_slice(&[9, 8, 7, 6]);
    assert_eq!(first_image(&data).unwrap(), &[9, 8, 7, 6]);
}

#[test]
fn reports_each_broken_directory() {
    let mut not_icon = icon_with_image(4, 22, 26);
    not_icon[2] = 2;
    assert_eq!(first_image(&not_icon).unwrap_err(), "托盘图标不是有效的 ICO 文件");
    let no_images = {
        let mut data = icon_with_image(4, 22, 26);
        data[4] = 0;
        data
    };
    assert_eq!(first_image(&no_images).unwrap_err(), "托盘图标不是有效的 ICO 文件");
    let truncated = icon_with_image(10, 22, 26);
    assert_eq!(first_image(&truncated).unwrap_err(), "托盘图标数据不完整");
}

#[test]
fn reads_little_endian_values() {
    let data = [0x34, 0x12, 0x78, 0x56];
    assert_eq!(read_u16(&data, 0), Some(0x1234));
    assert_eq!(read_u32(&data, 0), Some(0x5678_1234));
    assert_eq!(read_u16(&data, 3), None);
    assert_eq!(read_u32(&data, 1), None);
}
