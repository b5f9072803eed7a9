use inied::{IniComment, IniContent, IniEntry, IniFile, IniLine, IniOther, IniSection};

#[test]
fn pretty_print_adds_empty_line() {
    let mut lines = Vec::new();
    lines.push(IniLine::with_content(IniContent::Section(IniSection::create("X")), "\n"));
    lines.push(IniLine::with_content(IniContent::Entry(IniEntry::create("A", "1")), "\n"));
    lines.push(IniLine::with_content(IniContent::Section(IniSection::create("Y")), "\n"));
    lines.push(IniLine::with_content(IniContent::Entry(IniEntry::create("B", "2")), "\n"));
    let mut file = IniFile::new(lines);

    file.reformat();
    let file = file;
    print(&file);

    assert_eq!("[X]", file.lines()[0].content().to_string());
    assert_eq!("A=1", file.lines()[1].content().to_string());
    assert_eq!("", file.lines()[2].content().to_string());
    assert_eq!("[Y]", file.lines()[3].content().to_string());
    assert_eq!("B=2", file.lines()[4].content().to_string());
}

#[test]
fn pretty_print_removes_empty_line() {
    let mut lines = Vec::new();
    lines.push(IniLine::with_content(IniContent::Section(IniSection::create("X")), "\n"));
    lines.push(IniLine::with_content(IniContent::Entry(IniEntry::create("A", "1")), "\n"));
    lines.push(IniLine::with_content(IniContent::Other(IniOther::create("")), "\n"));
    lines.push(IniLine::with_content(IniContent::Other(IniOther::create("")), "\n"));
    lines.push(IniLine::with_content(IniContent::Section(IniSection::create("Y")), "\n"));
    lines.push(IniLine::with_content(IniContent::Entry(IniEntry::create("B", "2")), "\n"));
    lines.push(IniLine::with_content(IniContent::Other(IniOther::create("")), "\n"));
    let mut file = IniFile::new(lines);

    file.reformat();
    let file = file;
    print(&file);

    assert_eq!("[X]", file.lines()[0].content().to_string());
    assert_eq!("A=1", file.lines()[1].content().to_string());
    assert_eq!("", file.lines()[2].content().to_string());
    assert_eq!("[Y]", file.lines()[3].content().to_string());
    assert_eq!("B=2", file.lines()[4].content().to_string());
}

#[test]
fn filter_section() {
    let mut lines = Vec::new();
    lines.push(IniLine::with_content(IniContent::Section(IniSection::create("X")), "\n"));
    lines.push(IniLine::with_content(IniContent::Entry(IniEntry::create("A", "1")), "\n"));
    lines.push(IniLine::with_content(IniContent::Section(IniSection::create("Y")), "\n"));
    lines.push(IniLine::with_content(IniContent::Entry(IniEntry::create("B", "2")), "\n"));
    let mut file = IniFile::new(lines);

    file.filter(Some("X"), None);
    let file = file;
    print(&file);

    assert_eq!(2, file.lines().len());
    assert_eq!("[X]", file.lines()[0].content().to_string());
    assert_eq!("A=1", file.lines()[1].content().to_string());
}

#[test]
fn filter_entry_found() {
    let mut lines = Vec::new();
    lines.push(IniLine::with_content(IniContent::Section(IniSection::create("X")), "\n"));
    lines.push(IniLine::with_content(IniContent::Entry(IniEntry::create("A", "1")), "\n"));
    lines.push(IniLine::with_content(IniContent::Section(IniSection::create("Y")), "\n"));
    lines.push(IniLine::with_content(IniContent::Entry(IniEntry::create("B", "2")), "\n"));
    let mut file = IniFile::new(lines);

    file.filter(Some("X"), Some("A"));
    let file = file;
    print(&file);

    assert_eq!(1, file.lines().len());
    assert_eq!("A=1", file.lines()[0].content().to_string());
}

#[test]
fn filter_entry_section_not_found() {
    let mut lines = Vec::new();
    lines.push(IniLine::with_content(IniContent::Section(IniSection::create("X")), "\n"));
    lines.push(IniLine::with_content(IniContent::Entry(IniEntry::create("A", "1")), "\n"));
    lines.push(IniLine::with_content(IniContent::Section(IniSection::create("Y")), "\n"));
    lines.push(IniLine::with_content(IniContent::Entry(IniEntry::create("B", "2")), "\n"));
    let mut file = IniFile::new(lines);

    file.filter(Some("-"), Some("A"));
    let file = file;
    print(&file);

    assert_eq!(0, file.lines().len());
}

#[test]
fn filter_entry_key_not_found() {
    let mut lines = Vec::new();
    lines.push(IniLine::with_content(IniContent::Section(IniSection::create("X")), "\n"));
    lines.push(IniLine::with_content(IniContent::Entry(IniEntry::create("A", "1")), "\n"));
    lines.push(IniLine::with_content(IniContent::Section(IniSection::create("Y")), "\n"));
    lines.push(IniLine::with_content(IniContent::Entry(IniEntry::create("B", "2")), "\n"));
    let mut file = IniFile::new(lines);

    file.filter(Some("X"), Some("-"));
    let file = file;
    print(&file);

    assert_eq!(0, file.lines().len());
}

#[test]
fn append_no_spacing() {
    let mut lines = Vec::new();
    lines.push(IniLine::with_content(IniContent::Section(IniSection::create("X")), "\n"));
    lines.push(IniLine::with_content(IniContent::Entry(IniEntry::create("A", "1")), "\n"));
    lines.push(IniLine::with_content(IniContent::Section(IniSection::create("Y")), "\n"));
    lines.push(IniLine::with_content(IniContent::Entry(IniEntry::create("B", "2")), "\n"));
    let mut file = IniFile::new(lines);

    file.edit("X", "A", "10", false, true);
    file.edit("Y", "B", "20", false, true);
    file.edit("X", "C", "30", false, true);
    file.edit("Y", "D", "40", false, true);
    file.edit("Z", "E", "50", false, true);
    let file = file;
    print(&file);

    assert_eq!(10, file.lines().len());
    assert_eq!("[X]", file.lines()[0].content().to_string());
    assert_eq!("A=1", file.lines()[1].content().to_string());
    assert_eq!("A=10", file.lines()[2].content().to_string());
    assert_eq!("C=30", file.lines()[3].content().to_string());
    assert_eq!("[Y]", file.lines()[4].content().to_string());
    assert_eq!("B=2", file.lines()[5].content().to_string());
    assert_eq!("B=20", file.lines()[6].content().to_string());
    assert_eq!("D=40", file.lines()[7].content().to_string());
    assert_eq!("[Z]", file.lines()[8].content().to_string());
    assert_eq!("E=50", file.lines()[9].content().to_string());
}

#[test]
fn append_with_spacing() {
    let mut lines = Vec::new();
    lines.push(IniLine::with_content(IniContent::Section(IniSection::create("X")), "\n"));
    lines.push(IniLine::with_content(IniContent::Entry(IniEntry::create("A", "1")), "\n"));
    lines.push(IniLine::with_content(IniContent::Comment(IniComment::create("#", "-")), "\n"));
    lines.push(IniLine::with_content(IniContent::Other(IniOther::create("")), "\n"));
    lines.push(IniLine::with_content(IniContent::Section(IniSection::create("Y")), "\n"));
    lines.push(IniLine::with_content(IniContent::Entry(IniEntry::create("B", "2")), "\n"));
    lines.push(IniLine::with_content(IniContent::Other(IniOther::create("")), "\n"));
    let mut file = IniFile::new(lines);

    file.edit("X", "A", "10", false, true);
    file.edit("Y", "B", "20", false, true);
    file.edit("X", "C", "30", false, true);
    file.edit("Y", "D", "40", false, true);
    file.edit("Z", "E", "50", false, true);
    let file = file;
    print(&file);

    assert_eq!(13, file.lines().len());
    assert_eq!("[X]", file.lines()[0].content().to_string());
    assert_eq!("A=1", file.lines()[1].content().to_string());
    assert_eq!("#-", file.lines()[2].content().to_string());
    assert_eq!("A=10", file.lines()[3].content().to_string());
    assert_eq!("C=30", file.lines()[4].content().to_string());
    assert_eq!("", file.lines()[5].content().to_string());
    assert_eq!("[Y]", file.lines()[6].content().to_string());
    assert_eq!("B=2", file.lines()[7].content().to_string());
    assert_eq!("B=20", file.lines()[8].content().to_string());
    assert_eq!("D=40", file.lines()[9].content().to_string());
    assert_eq!("", file.lines()[10].content().to_string());
    assert_eq!("[Z]", file.lines()[11].content().to_string());
    assert_eq!("E=50", file.lines()[12].content().to_string());
}

#[test]
fn append_with_multi_spacing() {
    let mut lines = Vec::new();
    lines.push(IniLine::with_content(IniContent::Section(IniSection::create("X")), "\n"));
    lines.push(IniLine::with_content(IniContent::Entry(IniEntry::create("A", "1")), "\n"));
    lines.push(IniLine::with_content(IniContent::Comment(IniComment::create("#", "-")), "\n"));
    lines.push(IniLine::with_content(IniContent::Other(IniOther::create("")), "\n"));
    lines.push(IniLine::with_content(IniContent::Other(IniOther::create("")), "\n"));
    lines.push(IniLine::with_content(IniContent::Other(IniOther::create("")), "\n"));
    lines.push(IniLine::with_content(IniContent::Section(IniSection::create("Y")), "\n"));
    lines.push(IniLine::with_content(IniContent::Entry(IniEntry::create("B", "2")), "\n"));
    lines.push(IniLine::with_content(IniContent::Other(IniOther::create("")), "\n"));
    lines.push(IniLine::with_content(IniContent::Other(IniOther::create("")), "\n"));
    let mut file = IniFile::new(lines);

    file.edit("X", "A", "10", false, true);
    file.edit("Y", "B", "20", false, true);
    file.edit("X", "C", "30", false, true);
    file.edit("Y", "D", "40", false, true);
    file.edit("Z", "E", "50", false, true);
    let file = file;
    print(&file);

    assert_eq!(16, file.lines().len());
    assert_eq!("[X]", file.lines()[0].content().to_string());
    assert_eq!("A=1", file.lines()[1].content().to_string());
    assert_eq!("#-", file.lines()[2].content().to_string());
    assert_eq!("A=10", file.lines()[3].content().to_string());
    assert_eq!("C=30", file.lines()[4].content().to_string());
    assert_eq!("", file.lines()[5].content().to_string());
    assert_eq!("", file.lines()[6].content().to_string());
    assert_eq!("", file.lines()[7].content().to_string());
    assert_eq!("[Y]", file.lines()[8].content().to_string());
    assert_eq!("B=2", file.lines()[9].content().to_string());
    assert_eq!("B=20", file.lines()[10].content().to_string());
    assert_eq!("D=40", file.lines()[11].content().to_string());
    assert_eq!("", file.lines()[12].content().to_string());
    assert_eq!("", file.lines()[13].content().to_string());
    assert_eq!("[Z]", file.lines()[14].content().to_string());
    assert_eq!("E=50", file.lines()[15].content().to_string());
}

#[test]
fn change_no_spacing() {
    let mut lines = Vec::new();
    lines.push(IniLine::with_content(IniContent::Section(IniSection::create("X")), "\n"));
    lines.push(IniLine::with_content(IniContent::Entry(IniEntry::create("A", "1")), "\n"));
    lines.push(IniLine::with_content(IniContent::Section(IniSection::create("Y")), "\n"));
    lines.push(IniLine::with_content(IniContent::Entry(IniEntry::create("B", "2")), "\n"));
    let mut file = IniFile::new(lines);

    file.edit("X", "A", "10", true, false);
    file.edit("Y", "B", "20", true, false);
    file.edit("X", "C", "30", true, false);
    file.edit("Y", "D", "40", true, false);
    file.edit("Z", "E", "50", true, false);
    let file = file;
    print(&file);

    assert_eq!(4, file.lines().len());
    assert_eq!("[X]", file.lines()[0].content().to_string());
    assert_eq!("A=10", file.lines()[1].content().to_string());
    assert_eq!("[Y]", file.lines()[2].content().to_string());
    assert_eq!("B=20", file.lines()[3].content().to_string());
}

#[test]
fn change_with_spacing() {
    let mut lines = Vec::new();
    lines.push(IniLine::with_content(IniContent::Section(IniSection::create("X")), "\n"));
    lines.push(IniLine::with_content(IniContent::Entry(IniEntry::create("A", "1")), "\n"));
    lines.push(IniLine::with_content(IniContent::Comment(IniComment::create("#", "-")), "\n"));
    lines.push(IniLine::with_content(IniContent::Other(IniOther::create("")), "\n"));
    lines.push(IniLine::with_content(IniContent::Section(IniSection::create("Y")), "\n"));
    lines.push(IniLine::with_content(IniContent::Entry(IniEntry::create("B", "2")), "\n"));
    lines.push(IniLine::with_content(IniContent::Other(IniOther::create("")), "\n"));
    let mut file = IniFile::new(lines);

    file.edit("X", "A", "10", true, false);
    file.edit("Y", "B", "20", true, false);
    file.edit("X", "C", "30", true, false);
    file.edit("Y", "D", "40", true, false);
    file.edit("Z", "E", "50", true, false);
    let file = file;
    print(&file);

    assert_eq!(7, file.lines().len());
    assert_eq!("[X]", file.lines()[0].content().to_string());
    assert_eq!("A=10", file.lines()[1].content().to_string());
    assert_eq!("#-", file.lines()[2].content().to_string());
    assert_eq!("", file.lines()[3].content().to_string());
    assert_eq!("[Y]", file.lines()[4].content().to_string());
    assert_eq!("B=20", file.lines()[5].content().to_string());
    assert_eq!("", file.lines()[6].content().to_string());
}

#[test]
fn change_with_multi_spacing() {
    let mut lines = Vec::new();
    lines.push(IniLine::with_content(IniContent::Section(IniSection::create("X")), "\n"));
    lines.push(IniLine::with_content(IniContent::Entry(IniEntry::create("A", "1")), "\n"));
    lines.push(IniLine::with_content(IniContent::Comment(IniComment::create("#", "-")), "\n"));
    lines.push(IniLine::with_content(IniContent::Other(IniOther::create("")), "\n"));
    lines.push(IniLine::with_content(IniContent::Other(IniOther::create("")), "\n"));
    lines.push(IniLine::with_content(IniContent::Other(IniOther::create("")), "\n"));
    lines.push(IniLine::with_content(IniContent::Section(IniSection::create("Y")), "\n"));
    lines.push(IniLine::with_content(IniContent::Entry(IniEntry::create("B", "2")), "\n"));
    lines.push(IniLine::with_content(IniContent::Other(IniOther::create("")), "\n"));
    lines.push(IniLine::with_content(IniContent::Other(IniOther::create("")), "\n"));
    let mut file = IniFile::new(lines);

    file.edit("X", "A", "10", true, false);
    file.edit("Y", "B", "20", true, false);
    file.edit("X", "C", "30", true, false);
    file.edit("Y", "D", "40", true, false);
    file.edit("Z", "E", "50", true, false);
    let file = file;
    print(&file);

    assert_eq!(10, file.lines().len());
    assert_eq!("[X]", file.lines()[0].content().to_string());
    assert_eq!("A=10", file.lines()[1].content().to_string());
    assert_eq!("#-", file.lines()[2].content().to_string());
    assert_eq!("", file.lines()[3].content().to_string());
    assert_eq!("", file.lines()[4].content().to_string());
    assert_eq!("", file.lines()[5].content().to_string());
    assert_eq!("[Y]", file.lines()[6].content().to_string());
    assert_eq!("B=20", file.lines()[7].content().to_string());
    assert_eq!("", file.lines()[8].content().to_string());
    assert_eq!("", file.lines()[9].content().to_string());
}

#[test]
fn edit_no_spacing() {
    let mut lines = Vec::new();
    lines.push(IniLine::with_content(IniContent::Section(IniSection::create("X")), "\n"));
    lines.push(IniLine::with_content(IniContent::Entry(IniEntry::create("A", "1")), "\n"));
    lines.push(IniLine::with_content(IniContent::Section(IniSection::create("Y")), "\n"));
    lines.push(IniLine::with_content(IniContent::Entry(IniEntry::create("B", "2")), "\n"));
    let mut file = IniFile::new(lines);

    file.edit("X", "A", "10", true, true);
    file.edit("Y", "B", "20", true, true);
    file.edit("X", "C", "30", true, true);
    file.edit("Y", "D", "40", true, true);
    file.edit("Z", "E", "50", true, true);
    let file = file;
    print(&file);

    assert_eq!(8, file.lines().len());
    assert_eq!("[X]", file.lines()[0].content().to_string());
    assert_eq!("A=10", file.lines()[1].content().to_string());
    assert_eq!("C=30", file.lines()[2].content().to_string());
    assert_eq!("[Y]", file.lines()[3].content().to_string());
    assert_eq!("B=20", file.lines()[4].content().to_string());
    assert_eq!("D=40", file.lines()[5].content().to_string());
    assert_eq!("[Z]", file.lines()[6].content().to_string());
    assert_eq!("E=50", file.lines()[7].content().to_string());
}

#[test]
fn edit_with_spacing() {
    let mut lines = Vec::new();
    lines.push(IniLine::with_content(IniContent::Section(IniSection::create("X")), "\n"));
    lines.push(IniLine::with_content(IniContent::Entry(IniEntry::create("A", "1")), "\n"));
    lines.push(IniLine::with_content(IniContent::Comment(IniComment::create("#", "-")), "\n"));
    lines.push(IniLine::with_content(IniContent::Other(IniOther::create("")), "\n"));
    lines.push(IniLine::with_content(IniContent::Section(IniSection::create("Y")), "\n"));
    lines.push(IniLine::with_content(IniContent::Entry(IniEntry::create("B", "2")), "\n"));
    lines.push(IniLine::with_content(IniContent::Other(IniOther::create("")), "\n"));
    let mut file = IniFile::new(lines);

    file.edit("X", "A", "10", true, true);
    file.edit("Y", "B", "20", true, true);
    file.edit("X", "C", "30", true, true);
    file.edit("Y", "D", "40", true, true);
    file.edit("Z", "E", "50", true, true);
    let file = file;
    print(&file);

    assert_eq!(11, file.lines().len());
    assert_eq!("[X]", file.lines()[0].content().to_string());
    assert_eq!("A=10", file.lines()[1].content().to_string());
    assert_eq!("#-", file.lines()[2].content().to_string());
    assert_eq!("C=30", file.lines()[3].content().to_string());
    assert_eq!("", file.lines()[4].content().to_string());
    assert_eq!("[Y]", file.lines()[5].content().to_string());
    assert_eq!("B=20", file.lines()[6].content().to_string());
    assert_eq!("D=40", file.lines()[7].content().to_string());
    assert_eq!("", file.lines()[8].content().to_string());
    assert_eq!("[Z]", file.lines()[9].content().to_string());
    assert_eq!("E=50", file.lines()[10].content().to_string());
}

#[test]
fn edit_with_multi_spacing() {
    let mut lines = Vec::new();
    lines.push(IniLine::with_content(IniContent::Section(IniSection::create("X")), "\n"));
    lines.push(IniLine::with_content(IniContent::Entry(IniEntry::create("A", "1")), "\n"));
    lines.push(IniLine::with_content(IniContent::Comment(IniComment::create("#", "-")), "\n"));
    lines.push(IniLine::with_content(IniContent::Other(IniOther::create("")), "\n"));
    lines.push(IniLine::with_content(IniContent::Other(IniOther::create("")), "\n"));
    lines.push(IniLine::with_content(IniContent::Other(IniOther::create("")), "\n"));
    lines.push(IniLine::with_content(IniContent::Section(IniSection::create("Y")), "\n"));
    lines.push(IniLine::with_content(IniContent::Entry(IniEntry::create("B", "2")), "\n"));
    lines.push(IniLine::with_content(IniContent::Other(IniOther::create("")), "\n"));
    lines.push(IniLine::with_content(IniContent::Other(IniOther::create("")), "\n"));
    let mut file = IniFile::new(lines);

    file.edit("X", "A", "10", true, true);
    file.edit("Y", "B", "20", true, true);
    file.edit("X", "C", "30", true, true);
    file.edit("Y", "D", "40", true, true);
    file.edit("Z", "E", "50", true, true);
    let file = file;
    print(&file);

    assert_eq!(14, file.lines().len());
    assert_eq!("[X]", file.lines()[0].content().to_string());
    assert_eq!("A=10", file.lines()[1].content().to_string());
    assert_eq!("#-", file.lines()[2].content().to_string());
    assert_eq!("C=30", file.lines()[3].content().to_string());
    assert_eq!("", file.lines()[4].content().to_string());
    assert_eq!("", file.lines()[5].content().to_string());
    assert_eq!("", file.lines()[6].content().to_string());
    assert_eq!("[Y]", file.lines()[7].content().to_string());
    assert_eq!("B=20", file.lines()[8].content().to_string());
    assert_eq!("D=40", file.lines()[9].content().to_string());
    assert_eq!("", file.lines()[10].content().to_string());
    assert_eq!("", file.lines()[11].content().to_string());
    assert_eq!("[Z]", file.lines()[12].content().to_string());
    assert_eq!("E=50", file.lines()[13].content().to_string());
}

fn print(file: &IniFile) {
    let mut line_number = 0;
    for line in file.lines() {
        let kind = match line.get_content() {
            IniContent::Section(_) => "S",
            IniContent::Entry(_) => "E",
            IniContent::Comment(_) => "C",
            IniContent::Other(_) => "O",
        };
        println!("{:2} {}: {}", line_number, kind, line.get_content().to_string());
        line_number += 1;
    }
}
