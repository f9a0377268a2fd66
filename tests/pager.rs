use nes_core::error::NesError;
use nes_core::pager::{Page, PageSize, Pager};

fn numbered(pages: usize, size: usize) -> Vec<u8> {
    (0..pages * size).map(|i| (i / size) as u8).collect()
}

#[test]
fn uneven_buffer_fails_on_first_access() {
    let mut pager = Pager::new(vec![0u8; 0x3000]);
    assert_eq!(
        pager.read(Page::First(PageSize::EightKB), 0),
        Err(NesError::AddressOutOfRange)
    );
    assert_eq!(
        pager.write(Page::Last(PageSize::EightKB), 0, 1),
        Err(NesError::AddressOutOfRange)
    );
    assert_eq!(pager.data, vec![0u8; 0x3000]);
    // The same buffer is whole at 4 KiB pages.
    assert_eq!(pager.read(Page::Last(PageSize::FourKB), 0), Ok(0));
}

#[test]
fn page_selectors() {
    let pager = Pager::new(numbered(4, 0x400));
    assert_eq!(pager.read(Page::First(PageSize::OneKB), 5), Ok(0));
    assert_eq!(pager.read(Page::Last(PageSize::OneKB), 5), Ok(3));
    assert_eq!(pager.read(Page::Number(2, PageSize::OneKB), 0x3FF), Ok(2));
    assert_eq!(pager.read(Page::FromEnd(1, PageSize::OneKB), 0), Ok(2));
    assert_eq!(pager.read(Page::FromEnd(3, PageSize::OneKB), 0), Ok(0));
}

#[test]
fn out_of_range_pages_and_offsets() {
    let pager = Pager::new(numbered(4, 0x400));
    assert_eq!(
        pager.read(Page::Number(4, PageSize::OneKB), 0),
        Err(NesError::AddressOutOfRange)
    );
    assert_eq!(
        pager.read(Page::FromEnd(4, PageSize::OneKB), 0),
        Err(NesError::AddressOutOfRange)
    );
    assert_eq!(
        pager.read(Page::First(PageSize::OneKB), 0x400),
        Err(NesError::AddressOutOfRange)
    );
    let empty = Pager::new(Vec::new());
    assert_eq!(
        empty.read(Page::First(PageSize::OneKB), 0),
        Err(NesError::AddressOutOfRange)
    );
}

#[test]
fn write_then_read() {
    let mut pager = Pager::new(vec![0u8; 0x2000]);
    pager.write(Page::Number(1, PageSize::FourKB), 0x10, 0xAB).unwrap();
    assert_eq!(pager.data[0x1010], 0xAB);
    assert_eq!(pager.read(Page::Last(PageSize::FourKB), 0x10), Ok(0xAB));
}
