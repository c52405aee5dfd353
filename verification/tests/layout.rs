use browser_core::layout::{
    align_right, centered_percentages, display_name, file_row, FileRow, RESERVED_COLUMNS,
    SIZE_COLUMNS,
};
use browser_core::listing::Entry;

fn file(name: &str, size: u64) -> Entry {
    Entry { name: name.to_string(), is_dir: false, size }
}

#[test]
fn names_that_fit_are_shown_whole() {
    assert_eq!(display_name("short", 10), "short");
    assert_eq!(display_name("exactly-10", 10), "exactly-10");
    assert_eq!(display_name("", 0), "");
}

#[test]
fn long_names_are_cut_to_the_columns() {
    assert_eq!(display_name("averyveryverylongname.txt", 10), "averyve...");
    assert_eq!(display_name("abcdefghijk", 10), "abcdefg...");
    assert_eq!(display_name("abcd", 3), "...");
    assert_eq!(display_name("abc", 2), "...");
    assert_eq!(display_name("a", 0), "...");
    assert_eq!(display_name("äöüäöüäöü", 6), "äöü...");
}

#[test]
fn align_right_pads_on_the_left() {
    assert_eq!(align_right("1.5 KB", 10), "    1.5 KB");
    assert_eq!(align_right("1023 B", 10), "    1023 B");
    assert_eq!(align_right("", 3), "   ");
    assert_eq!(align_right("0123456789", 10), "0123456789");
    assert_eq!(align_right("17179869184.0 GB", 10), "17179869184.0 GB");
}

#[test]
fn align_right_agrees_with_std_formatting() {
    for text in ["", "a", "12 B", "1024.0 KB", "a much longer text"] {
        for width in [0usize, 1, 4, 10, 12] {
            assert_eq!(align_right(text, width), format!("{:>width$}", text, width = width));
        }
    }
}

#[test]
fn row_of_a_file() {
    assert_eq!(SIZE_COLUMNS, 10);
    assert_eq!(RESERVED_COLUMNS, 14);
    let row = file_row(&file("file.txt", 1536), 40, 1);
    assert_eq!(
        row,
        FileRow { name: "file.txt".to_string(), padding: 15, size: Some("    1.5 KB".to_string()) }
    );
}

#[test]
fn row_of_a_directory_has_no_size() {
    let entry = Entry { name: "src".to_string(), is_dir: true, size: 4096 };
    let row = file_row(&entry, 40, 1);
    assert_eq!(row, FileRow { name: "src".to_string(), padding: 20, size: None });
}

#[test]
fn row_in_a_narrow_list() {
    let row = file_row(&file("file.txt", 10), 10, 1);
    assert_eq!(row, FileRow { name: "...".to_string(), padding: 0, size: Some("      10 B".to_string()) });
    let row = file_row(&file("a-long-file-name.txt", 10), 24, 1);
    assert_eq!(
        row,
        FileRow { name: "a-long-...".to_string(), padding: 0, size: Some("      10 B".to_string()) }
    );
}

#[test]
fn row_with_a_name_that_fills_its_columns() {
    let row = file_row(&file("abcdefghij", 0), 24, 1);
    assert_eq!(row.name, "abcdefghij");
    assert_eq!(row.padding, 0);
    let row = file_row(&file("abcdef", 0), 24, 1);
    assert_eq!(row.padding, 1);
    let row = file_row(&file("abcdef", 0), 24, usize::MAX);
    assert_eq!(row.padding, 0);
}

#[test]
fn popup_margins() {
    assert_eq!(centered_percentages(60), (20, 60, 20));
    assert_eq!(centered_percentages(20), (40, 20, 40));
    assert_eq!(centered_percentages(100), (0, 100, 0));
    assert_eq!(centered_percentages(0), (50, 0, 50));
    assert_eq!(centered_percentages(99), (0, 99, 0));
    assert_eq!(centered_percentages(35), (32, 35, 32));
}
