use cairo_listings::cmd::ScarbCmd;
use cairo_listings::output::{
    clean_output, command_check, drop_lock_lines, read_command, regenerate, render_output_file,
};

fn s(v: &[&str]) -> Vec<String> {
    v.iter().map(|x| x.to_string()).collect()
}

#[test]
fn regenerating_twice_gives_the_same_bytes() {
    let old = "$ scarb cairo-run --available-gas=200000000\nold output\n\n";
    let printed = "   Compiling pkg v0.1.0 (/home/me/book/listings/ch01/pkg/Scarb.toml)\nerror: x\n --> /home/me/book/listings/ch01/pkg/src/lib.cairo:3:5\nRun completed\n";
    let (command, args) = read_command(old).unwrap();
    let first = regenerate(&command, &args, printed).unwrap();
    let (command2, args2) = read_command(&first).unwrap();
    assert_eq!((command2.clone(), args2.clone()), (command, args));
    let second = regenerate(&command2, &args2, printed).unwrap();
    assert_eq!(first.as_bytes(), second.as_bytes());
    assert_eq!(
        first,
        "$ scarb cairo-run --available-gas=200000000\n   Compiling pkg v0.1.0 (listings/ch01/pkg/Scarb.toml)\nerror: x\n --> listings/ch01/pkg/src/lib.cairo:3:5\nRun completed\n\n"
    );
}

#[test]
fn first_line_names_the_command_and_its_arguments() {
    assert_eq!(
        read_command("$ scarb cairo-run --available-gas=200000000\nrest"),
        Some(("scarb cairo-run".to_string(), s(&["--available-gas=200000000"])))
    );
    assert_eq!(read_command("$ scarb build\n"), Some(("scarb build".to_string(), Vec::new())));
    assert_eq!(read_command("$ scarb"), Some(("scarb".to_string(), Vec::new())));
    assert_eq!(
        read_command("$   scarb \t test   a  b\r\nx y"),
        Some(("scarb test".to_string(), s(&["a", "b"])))
    );
}

#[test]
fn first_line_without_a_command_names_none() {
    assert_eq!(read_command(""), None);
    assert_eq!(read_command("scarb build\n"), None);
    assert_eq!(read_command("$scarb build\n"), None);
    assert_eq!(read_command("$ \n scarb build"), None);
    assert_eq!(read_command("$ "), None);
    assert_eq!(read_command(" $ scarb build"), None);
}

#[test]
fn recorded_commands_stand_for_checks() {
    assert_eq!(command_check("scarb build"), Some(ScarbCmd::Build()));
    assert_eq!(command_check("scarb cairo-run"), Some(ScarbCmd::CairoRun()));
    assert_eq!(command_check("scarb test"), Some(ScarbCmd::Test()));
    assert_eq!(command_check("scarb cairo-test"), Some(ScarbCmd::Test()));
    assert_eq!(command_check("scarb format"), Some(ScarbCmd::Format()));
    assert_eq!(command_check("scarb fmt"), None);
    assert_eq!(command_check("scarb"), None);
    assert_eq!(command_check(""), None);
}

#[test]
fn lock_notice_lines_are_dropped() {
    let text = "a\n    Blocking waiting for file lock on package cache\nb\nBlocking waiting for file lock on package cache\n";
    assert_eq!(drop_lock_lines(text), "a\nb");
    assert_eq!(drop_lock_lines("a\r\nb\n\nc"), "a\nb\n\nc");
    assert_eq!(drop_lock_lines(""), "");
    assert_eq!(drop_lock_lines("Blocking waiting for file lock on package cache"), "");
}

#[test]
fn paths_are_cut_down_to_start_at_listings() {
    assert_eq!(
        clean_output("Compiling x (/abs/path/listings/ch01/x/Scarb.toml)").unwrap(),
        "Compiling x (listings/ch01/x/Scarb.toml)"
    );
    assert_eq!(
        clean_output(" -->   /abs/listings/a/src/lib.cairo:1:2").unwrap(),
        " --> listings/a/src/lib.cairo:1:2"
    );
    assert_eq!(clean_output("nothing (to see) here").unwrap(), "nothing (to see) here");
    assert_eq!(
        clean_output("warn (/p/listings/a) and (/q/listings/b)\n(/r/listings/c)").unwrap(),
        "warn (listings/a) and (/q/listings/b)\n(listings/c)"
    );
}

#[test]
fn record_starts_with_the_command_line() {
    assert_eq!(
        render_output_file("scarb build", &Vec::new(), "out"),
        "$ scarb build \nout\n\n"
    );
    assert_eq!(
        render_output_file("scarb test", &s(&["a", "b"]), "l1\nl2"),
        "$ scarb test a b\nl1\nl2\n\n"
    );
}

#[test]
fn record_names_its_own_command() {
    let lines = [
        "$ scarb build",
        "$ scarb",
        "$   scarb   cairo-run   --available-gas=200000000   -v ",
        "$ scarb test a b c\r",
        "$ \u{a0}scarb\u{2003}fmt",
    ];
    for line in lines {
        let (command, args) = read_command(line).unwrap();
        for output in ["", "out", "a\nb\n", "\n$ other command\n"] {
            let record = render_output_file(&command, &args, output);
            assert_eq!(read_command(&record), Some((command.clone(), args.clone())), "{:?}", line);
            let (command2, args2) = read_command(&record).unwrap();
            assert_eq!(render_output_file(&command2, &args2, output), record);
        }
    }
}
