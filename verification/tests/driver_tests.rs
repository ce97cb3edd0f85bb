//! The same traffic as the channel tests, driven the way an embedding test
//! harness drives one long-lived stream set: reusing a single handle and
//! resetting the buffers with `clear` between bursts.

use altio::Altio;

const ALPHABET: &str = "abcdefg\nhijklmn\nopq rst\nuvw xyz";

#[test]
fn lib_altin_lock_read_line() {
    let io = Altio::default();

    io.send_line(ALPHABET);

    let mut lock = io.input().lock();
    let mut buf = String::new();

    lock.read_line(&mut buf).unwrap();
    assert_eq!(buf, "abcdefg\n");

    lock.read_line(&mut buf).unwrap();
    assert_eq!(buf, "abcdefg\nhijklmn\n");

    lock.read_line(&mut buf).unwrap();
    assert_eq!(buf, "abcdefg\nhijklmn\nopq rst\n");

    lock.read_line(&mut buf).unwrap();
    assert_eq!(buf, "abcdefg\nhijklmn\nopq rst\nuvw xyz\n");
}

#[test]
fn lib_altin_lock_read_to_string() {
    let io = Altio::default();

    io.send(ALPHABET);

    let mut lock = io.input().lock();
    let mut buf = String::new();

    lock.read_to_string(&mut buf).unwrap();
    assert_eq!(buf, ALPHABET);
}

#[test]
fn lib_lines() {
    let io = Altio::default();

    let mut empty = io.input().lines();
    assert!(empty.next().is_none());

    io.send(ALPHABET);
    let mut it = io.input().lines();
    let mut got: Vec<String> = Vec::new();
    while let Some(line) = it.next() {
        got.push(line);
    }
    assert_eq!(
        got,
        vec!["abcdefg\n".to_owned(), "hijklmn\n".to_owned(), "opq rst\n".to_owned()]
    );
}

#[test]
fn lib_altin_read_line() {
    let io = Altio::default();

    io.send(ALPHABET);

    let mut buf = String::new();
    io.input().read_line(&mut buf).unwrap();
    assert_eq!(buf, "abcdefg\n");
}

#[test]
fn lib_altin_read_to_string() {
    let io = Altio::default();

    io.send(ALPHABET);

    let mut buf = String::new();
    io.input().read_to_string(&mut buf).unwrap();
    assert_eq!(buf, ALPHABET);
}

#[test]
fn lib_altout_lock_write_fmt() {
    let io = Altio::default();

    {
        let mut lock = io.out();
        let contents = ALPHABET;
        for line in contents.lines() {
            lock.write_str(&format!("{}\n", line));
        }
    }

    assert_eq!(io.recv().trim(), ALPHABET);
}

#[test]
fn lib_altout_write_fmt() {
    let io = Altio::default();

    let contents = ALPHABET;
    for line in contents.lines() {
        io.out().write_str(&format!("{}\n", line));
    }

    assert_eq!(io.recv().trim(), ALPHABET);
}

#[test]
fn lib_alterr_lock_write_fmt() {
    let io = Altio::default();

    {
        let mut lock = io.err();
        let contents = ALPHABET;
        for line in contents.lines() {
            lock.write_str(&format!("{}\n", line));
        }
    }

    assert_eq!(io.recv_err().trim(), ALPHABET);
}

#[test]
fn lib_alterr_write_fmt() {
    let io = Altio::default();

    let contents = ALPHABET;
    for line in contents.lines() {
        io.err().write_str(&format!("{}\n", line));
    }

    assert_eq!(io.recv_err().trim(), ALPHABET);
}

#[test]
fn lib_nothing_received() {
    let io = Altio::default();

    assert!(io.try_recv().is_none());
    assert!(io.try_recv_line().is_none());
    assert!(io.try_recv_err().is_none());
    assert!(io.try_recv_err_line().is_none());
}

#[test]
fn lib_io_print() {
    let io = Altio::default();

    io.clear(); io.out().write_str(""); assert!(io.try_recv().is_none());
    io.clear(); io.out().write_str(""); assert!(io.try_recv_line().is_none());
    io.clear(); io.out().write_str(""); assert!(io.try_recv_err().is_none());
    io.clear(); io.out().write_str(""); assert!(io.try_recv_err_line().is_none());

    io.clear(); io.out().write_str(" "); assert!(io.try_recv().is_some());
    io.clear(); io.out().write_str(" "); assert!(io.try_recv_line().is_none());
    io.clear(); io.out().write_str(" "); assert!(io.try_recv_err().is_none());
    io.clear(); io.out().write_str(" "); assert!(io.try_recv_err_line().is_none());

    io.clear(); io.out().write_str("\n"); assert!(io.try_recv().is_some());
    io.clear(); io.out().write_str("\n"); assert!(io.try_recv_line().is_some());
    io.clear(); io.out().write_str("\n"); assert!(io.try_recv_err().is_none());
    io.clear(); io.out().write_str("\n"); assert!(io.try_recv_err_line().is_none());
}

#[test]
fn lib_io_println() {
    let io = Altio::default();

    io.clear(); io.out().write_str("\n"); assert!(io.try_recv().is_some());
    io.clear(); io.out().write_str("\n"); assert!(io.try_recv_line().is_some());
    io.clear(); io.out().write_str("\n"); assert!(io.try_recv_err().is_none());
    io.clear(); io.out().write_str("\n"); assert!(io.try_recv_err_line().is_none());
}

#[test]
fn lib_io_eprint() {
    let io = Altio::default();

    io.clear(); io.err().write_str(""); assert!(io.try_recv().is_none());
    io.clear(); io.err().write_str(""); assert!(io.try_recv_line().is_none());
    io.clear(); io.err().write_str(""); assert!(io.try_recv_err().is_none());
    io.clear(); io.err().write_str(""); assert!(io.try_recv_err_line().is_none());

    io.clear(); io.err().write_str(" "); assert!(io.try_recv().is_none());
    io.clear(); io.err().write_str(" "); assert!(io.try_recv_line().is_none());
    io.clear(); io.err().write_str(" "); assert!(io.try_recv_err().is_some());
    io.clear(); io.err().write_str(" "); assert!(io.try_recv_err_line().is_none());

    io.clear(); io.err().write_str("\n"); assert!(io.try_recv().is_none());
    io.clear(); io.err().write_str("\n"); assert!(io.try_recv_line().is_none());
    io.clear(); io.err().write_str("\n"); assert!(io.try_recv_err().is_some());
    io.clear(); io.err().write_str("\n"); assert!(io.try_recv_err_line().is_some());
}

#[test]
fn lib_io_eprintln() {
    let io = Altio::default();

    io.clear(); io.err().write_str("\n"); assert!(io.try_recv().is_none());
    io.clear(); io.err().write_str("\n"); assert!(io.try_recv_line().is_none());
    io.clear(); io.err().write_str("\n"); assert!(io.try_recv_err().is_some());
    io.clear(); io.err().write_str("\n"); assert!(io.try_recv_err_line().is_some());
}

#[test]
fn receive() {
    let io = Altio::default();

    io.out().write_str("");
    assert!(io.try_recv().is_none());

    io.out().write_str(" ");
    assert!(io.try_recv_err().is_none());
    assert_eq!(io.try_recv(), Some(" ".to_owned()));

    io.out().write_str("abcdefg\nhijklmn\nopq rst\nuvw xyz");
    assert_eq!(io.try_recv_line(), Some("abcdefg\n".to_owned()));
    assert_eq!(io.recv_line(), "hijklmn\n");
    assert_eq!(io.recv(), "opq rst\nuvw xyz");
}

#[test]
fn lib_receive_err() {
    let io = Altio::default();

    io.err().write_str("");
    assert!(io.try_recv_err().is_none());

    io.err().write_str(" ");
    assert!(io.try_recv().is_none());
    assert_eq!(io.try_recv_err(), Some(" ".to_owned()));

    io.err().write_str("abcdefg\nhijklmn\nopq rst\nuvw xyz");
    assert_eq!(io.try_recv_err_line(), Some("abcdefg\n".to_owned()));
    assert_eq!(io.recv_err_line(), "hijklmn\n");
    assert_eq!(io.recv_err(), "opq rst\nuvw xyz");
}
