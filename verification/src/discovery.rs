//! Finding the port behind a socket in the tables that Linux keeps under `/proc`.

use std::collections::HashMap;

use vstd::prelude::*;

use crate::files::FileRead;
use crate::text::{
    after_last, decimal, fields, find_after_last, is_white, law_after_last,
    law_decimal_is_read_back, law_fields_of_two_texts, law_lines, law_prefix, law_sign, line_end,
    lines, number, parse_number, push_decimal, push_signed_decimal, signed_decimal, span_is,
    split_fields, strip_cr, strip_prefix, to_chars, without_prefix,
};

verus! {

broadcast use vstd::std_specs::hash::group_hash_axioms;

/// The state that the kernel shows for a listening socket.
pub open spec fn listen_state() -> Seq<char> {
    "0A"@
}

/// The socket inode and the port of a row of a TCP table, where the row is that of a listening
/// socket: its fourth field is the listening state, its second field ends in a colon and the port
/// in hexadecimal, and its tenth field is the inode in decimal. A port is never zero.
pub open spec fn listener(row: Seq<char>) -> Option<(u64, u16)> {
    let cells = fields(row);
    if cells.len() < 10 || cells[3] != listen_state() {
        None
    } else {
        match after_last(cells[1], ':') {
            Some(hex) => match (number(hex, 16, 0xffff), number(cells[9], 10, u64::MAX as nat)) {
                (Some(port), Some(inode)) => if port != 0 {
                    Some((inode as u64, port as u16))
                } else {
                    None
                },
                _ => None,
            },
            None => None,
        }
    }
}

/// The rows of a TCP table: its lines, without the heading.
pub open spec fn table_rows(contents: Seq<char>) -> Seq<Seq<char>> {
    if lines(contents).len() == 0 {
        Seq::empty()
    } else {
        lines(contents).drop_first()
    }
}

/// `known` with the listener that `row` shows, if it shows one.
pub open spec fn with_row(known: Map<u64, u16>, row: Seq<char>) -> Map<u64, u16> {
    match listener(row) {
        Some((inode, port)) => known.insert(inode, port),
        None => known,
    }
}

/// `known` with the listeners that `rows` show, where a later row wins over an earlier one.
pub open spec fn with_rows(known: Map<u64, u16>, rows: Seq<Seq<char>>) -> Map<u64, u16>
    decreases rows.len(),
{
    if rows.len() == 0 {
        known
    } else {
        with_rows(with_row(known, rows.first()), rows.drop_first())
    }
}

/// Adds the listeners of a TCP table, from socket inode to port, to `listeners`.
pub fn parse_tcp_table(contents: &str, listeners: &mut HashMap<u64, u16>)
    ensures
        final(listeners)@ == with_rows(old(listeners)@, table_rows(contents@)),
{
    let chars = to_chars(contents);
    if chars.len() == 0 {
        return;
    }
    let heading: usize = line_end(&chars, 0);
    proof {
        assert(chars@.skip(0) == chars@);
    }
    if heading == chars.len() {
        assert(lines(chars@).drop_first() == Seq::<Seq<char>>::empty());
        return;
    }
    let mut pos: usize = heading + 1;
    proof {
        assert(lines(chars@).drop_first() == lines(chars@.skip(pos as int)));
    }
    while pos < chars.len()
        invariant
            0 <= pos <= chars@.len(),
            with_rows(listeners@, lines(chars@.skip(pos as int))) == with_rows(
                old(listeners)@,
                table_rows(contents@),
            ),
        decreases chars@.len() - pos,
    {
        let ghost rest = chars@.skip(pos as int);
        let end: usize = line_end(&chars, pos);
        let mut stop: usize = end;
        if end < chars.len() && end > pos && chars[end - 1] == '\r' {
            stop = end - 1;
        }
        let ghost row = lines(rest).first();
        proof {
            if end == chars@.len() {
                assert(row == chars@.subrange(pos as int, stop as int));
                assert(lines(rest).drop_first() == Seq::<Seq<char>>::empty());
                assert(chars@.skip(end as int) == Seq::<char>::empty());
            } else {
                let line = rest.take(end - pos);
                assert(line.len() > 0 ==> line.last() == chars@[end - 1]);
                assert(strip_cr(line) == chars@.subrange(pos as int, stop as int));
                assert(rest.skip(end - pos + 1) == chars@.skip(end + 1));
                assert(lines(rest).drop_first() == lines(chars@.skip(end + 1)));
            }
        }
        if let Some((inode, port)) = parse_row(&chars, pos, stop) {
            listeners.insert(inode, port);
        }
        pos = if end < chars.len() {
            end + 1
        } else {
            end
        };
    }
    proof {
        assert(chars@.skip(pos as int) == Seq::<char>::empty());
    }
}

/// The socket inode and the port that the row from `chars[from]` up to `chars[to]` shows.
fn parse_row(chars: &[char], from: usize, to: usize) -> (found: Option<(u64, u16)>)
    requires
        from <= to <= chars@.len(),
    ensures
        found == listener(chars@.subrange(from as int, to as int)),
{
    let cells = split_fields(chars, from, to);
    if cells.len() < 10 || !span_is(chars, cells[3].0, cells[3].1, "0A") {
        return None;
    }
    let port_start: usize = match find_after_last(chars, cells[1].0, cells[1].1, ':') {
        Some(at) => at,
        None => {
            return None;
        },
    };
    let port: Option<u64> = parse_number(chars, port_start, cells[1].1, 16, 0xffff);
    let inode: Option<u64> = parse_number(chars, cells[9].0, cells[9].1, 10, u64::MAX);
    match (port, inode) {
        (Some(port), Some(inode)) => if port != 0 {
            Some((inode, port as u16))
        } else {
            None
        },
        _ => None,
    }
}

/// The inode that the link `socket:[inode]` in a process's table of open files names, where
/// `target` is such a link.
pub open spec fn link_inode(target: Seq<char>) -> Option<u64> {
    match without_prefix(target, "socket:["@) {
        Some(rest) => if rest.len() > 0 && rest.last() == ']' {
            match number(rest.drop_last(), 10, u64::MAX as nat) {
                Some(inode) => Some(inode as u64),
                None => None,
            }
        } else {
            None
        },
        None => None,
    }
}

/// The inode of the socket to which `target` links.
pub fn socket_inode(target: &str) -> (inode: Option<u64>)
    ensures
        inode == link_inode(target@),
{
    let chars = to_chars(target);
    let from: usize = match strip_prefix(&chars, "socket:[") {
        Some(from) => from,
        None => {
            return None;
        },
    };
    let ghost rest = chars@.skip(from as int);
    if from == chars.len() || chars[chars.len() - 1] != ']' {
        return None;
    }
    proof {
        assert(rest.last() == chars@.last());
        assert(rest.drop_last() == chars@.subrange(from as int, chars@.len() - 1));
    }
    parse_number(&chars, from, chars.len() - 1, 10, u64::MAX)
}

/// The listeners that a table adds to `known`: those of its contents, and none where there is no
/// such table.
pub open spec fn with_table(known: Map<u64, u16>, table: FileRead) -> Map<u64, u16> {
    match table {
        FileRead::Contents(contents) => with_rows(known, table_rows(contents@)),
        _ => known,
    }
}

/// The reason why the listeners cannot be known: the first table that could not be read.
pub open spec fn tables_failure(tcp: FileRead, tcp6: FileRead) -> Option<Seq<char>> {
    match (tcp, tcp6) {
        (FileRead::Failed(reason), _) => Some(reason@),
        (_, FileRead::Failed(reason)) => Some(reason@),
        _ => None,
    }
}

/// The listeners of the tables for both versions of the protocol, from socket inode to port. A
/// missing table counts as an empty one.
pub open spec fn tables_listeners(tcp: FileRead, tcp6: FileRead) -> Map<u64, u16> {
    with_table(with_table(Map::empty(), tcp), tcp6)
}

/// Reads the listeners, from socket inode to port, from the tables for both versions of the
/// protocol. A missing table is passed over, and one that could not be read is an error.
pub fn listener_inodes(tcp: &FileRead, tcp6: &FileRead) -> (listeners: Result<
    HashMap<u64, u16>,
    String,
>)
    ensures
        match tables_failure(*tcp, *tcp6) {
            Some(reason) => listeners matches Err(error) && error@ == reason,
            None => listeners matches Ok(found) && found@ == tables_listeners(*tcp, *tcp6),
        },
{
    let mut listeners: HashMap<u64, u16> = HashMap::new();
    match tcp {
        FileRead::Contents(contents) => parse_tcp_table(contents.as_str(), &mut listeners),
        FileRead::Missing => {},
        FileRead::Failed(reason) => {
            return Err(reason.clone());
        },
    }
    match tcp6 {
        FileRead::Contents(contents) => parse_tcp_table(contents.as_str(), &mut listeners),
        FileRead::Missing => {},
        FileRead::Failed(reason) => {
            return Err(reason.clone());
        },
    }
    Ok(listeners)
}

/// The port on which the socket behind `target` listens, according to the tables `tcp` and
/// `tcp6`. What is no socket has no port, whatever became of the tables.
pub fn socket_port(target: &str, tcp: &FileRead, tcp6: &FileRead) -> (port: Result<
    Option<u16>,
    String,
>)
    ensures
        match link_inode(target@) {
            None => port == Ok::<Option<u16>, String>(None),
            Some(inode) => match tables_failure(*tcp, *tcp6) {
                Some(reason) => port matches Err(error) && error@ == reason,
                None => port == Ok::<Option<u16>, String>(
                    tables_listeners(*tcp, *tcp6).get(inode),
                ),
            },
        },
{
    let inode: u64 = match socket_inode(target) {
        Some(inode) => inode,
        None => {
            return Ok(None);
        },
    };
    match listener_inodes(tcp, tcp6) {
        Ok(listeners) => match listeners.get(&inode) {
            Some(port) => Ok(Some(*port)),
            None => Ok(None),
        },
        Err(reason) => Err(reason),
    }
}

/// Where `/proc` keeps the link for the open file `fd` of the process `pid`.
pub fn fd_link_path(pid: i32, fd: u32) -> (path: String)
    ensures
        path@ == "/proc/"@ + signed_decimal(pid as int) + "/fd/"@ + decimal(fd as nat),
{
    let mut path: String = "/proc/".to_owned();
    push_signed_decimal(&mut path, pid);
    path.append("/fd/");
    push_decimal(&mut path, fd as u128);
    path
}

/// Where `/proc` keeps the table `name` of the sockets that the process `pid` can see.
pub fn tcp_table_path(pid: i32, name: &str) -> (path: String)
    ensures
        path@ == "/proc/"@ + signed_decimal(pid as int) + "/net/"@ + name@,
{
    let mut path: String = "/proc/".to_owned();
    push_signed_decimal(&mut path, pid);
    path.append("/net/");
    path.append(name);
    path
}

/// Whether `/proc` is there to discover listeners with: `/proc/self/fd` is a directory and
/// `/proc/net/tcp` is a file.
pub fn proc_available(self_fd_is_dir: bool, net_tcp_is_file: bool) -> (available: bool)
    ensures
        available == (self_fd_is_dir && net_tcp_is_file),
{
    self_fd_is_dir && net_tcp_is_file
}

/// Only listening rows count: whatever a table adds or changes is what one of its rows shows of a
/// listening socket, and a port that it adds is never zero.
pub proof fn law_only_listening_rows(known: Map<u64, u16>, rows: Seq<Seq<char>>, inode: u64)
    requires
        with_rows(known, rows).contains_key(inode),
    ensures
        (known.contains_key(inode) && with_rows(known, rows)[inode] == known[inode]) || exists|
            i: int,
        |
            0 <= i < rows.len() && #[trigger] listener(rows[i]) == Some(
                (inode, with_rows(known, rows)[inode]),
            ) && with_rows(known, rows)[inode] != 0,
    decreases rows.len(),
{
    if rows.len() > 0 {
        let next = with_row(known, rows.first());
        let rest = rows.drop_first();
        law_only_listening_rows(next, rest, inode);
        let port = with_rows(known, rows)[inode];
        if next.contains_key(inode) && port == next[inode] {
            if !(known.contains_key(inode) && known[inode] == port) {
                assert(listener(rows[0]) == Some((inode, port)));
                lemma_listener_port(rows[0]);
            }
        } else {
            let i = choose|i: int|
                0 <= i < rest.len() && #[trigger] listener(rest[i]) == Some((inode, port));
            assert(rest[i] == rows[i + 1]);
            assert(listener(rows[i + 1]) == Some((inode, port)));
            lemma_listener_port(rows[i + 1]);
        }
    }
}

proof fn lemma_listener_port(row: Seq<char>)
    ensures
        listener(row) matches Some((_, port)) ==> port != 0,
{
}

/// No listener is lost: the last row that shows a listening socket decides its port.
pub proof fn law_last_listening_row_wins(known: Map<u64, u16>, rows: Seq<Seq<char>>, at: int)
    requires
        0 <= at < rows.len(),
        listener(rows[at]) is Some,
        forall|later: int|
            at < later < rows.len() ==> (#[trigger] listener(rows[later]) matches Some((inode, _))
                ==> inode != (listener(rows[at])->0).0),
    ensures
        with_rows(known, rows).contains_key((listener(rows[at])->0).0),
        with_rows(known, rows)[(listener(rows[at])->0).0] == (listener(rows[at])->0).1,
    decreases rows.len(),
{
    let (inode, port) = listener(rows[at])->0;
    let rest = rows.drop_first();
    if at > 0 {
        assert(rest[at - 1] == rows[at]);
        assert forall|later: int| at - 1 < later < rest.len() implies (#[trigger] listener(
            rest[later],
        ) matches Some((other, _)) ==> other != inode) by {
            assert(rest[later] == rows[later + 1]);
            assert(listener(rows[later + 1]) == listener(rest[later]));
        }
        law_last_listening_row_wins(with_row(known, rows.first()), rest, at - 1);
    } else {
        assert forall|later: int| 0 <= later < rest.len() implies (#[trigger] listener(
            rest[later],
        ) matches Some((other, _)) ==> other != inode) by {
            assert(rest[later] == rows[later + 1]);
            assert(listener(rows[later + 1]) == listener(rest[later]));
        }
        lemma_untouched(with_row(known, rows.first()), rest, inode);
    }
}

proof fn lemma_untouched(known: Map<u64, u16>, rows: Seq<Seq<char>>, inode: u64)
    requires
        forall|i: int|
            0 <= i < rows.len() ==> (#[trigger] listener(rows[i]) matches Some((other, _)) ==> other
                != inode),
    ensures
        with_rows(known, rows).contains_key(inode) == known.contains_key(inode),
        known.contains_key(inode) ==> with_rows(known, rows)[inode] == known[inode],
    decreases rows.len(),
{
    if rows.len() > 0 {
        let rest = rows.drop_first();
        assert(listener(rows[0]) == listener(rows.first()));
        assert forall|i: int| 0 <= i < rest.len() implies (#[trigger] listener(rest[i]) matches Some(
            (other, _),
        ) ==> other != inode) by {
            assert(rest[i] == rows[i + 1]);
            assert(listener(rows[i + 1]) == listener(rest[i]));
        }
        lemma_untouched(with_row(known, rows.first()), rest, inode);
    }
}

/// What a row of at least ten fields shows is in its second, fourth and tenth field, whatever the
/// others hold and however many follow. Where the fourth is the listening state, the second ends in
/// a colon and a port in hexadecimal that is not zero, and the tenth is an inode in decimal, the
/// row shows that inode and that port.
pub proof fn law_row_shows_its_listener(
    row: Seq<char>,
    address: Seq<char>,
    hex: Seq<char>,
    port: u16,
    inode: u64,
)
    requires
        fields(row).len() >= 10,
        fields(row)[1] == address + seq![':'] + hex,
        !hex.contains(':'),
        number(hex, 16, 0xffff) == Some(port as nat),
        number(fields(row)[9], 10, u64::MAX as nat) == Some(inode as nat),
    ensures
        fields(row)[3] == seq!['0', 'A'] && port != 0 ==> listener(row) == Some((inode, port)),
        fields(row)[3] != seq!['0', 'A'] ==> listener(row) is None,
        port == 0 ==> listener(row) is None,
{
    reveal_strlit("0A");
    assert("0A"@ == seq!['0', 'A']);
    law_after_last(address, ':', hex);
}

/// A row shows nothing where it has fewer than ten fields, where its second has no colon or no
/// port of sixteen bits behind the last one, or where its tenth is no number of sixty-four bits.
pub proof fn law_other_rows_show_nothing(row: Seq<char>, address: Seq<char>, hex: Seq<char>)
    requires
        !hex.contains(':'),
    ensures
        fields(row).len() < 10 ==> listener(row) is None,
        fields(row).len() >= 10 && !fields(row)[1].contains(':') ==> listener(row) is None,
        fields(row).len() >= 10 && fields(row)[1] == address + seq![':'] + hex && number(
            hex,
            16,
            0xffff,
        ) is None ==> listener(row) is None,
        fields(row).len() >= 10 && number(fields(row)[9], 10, u64::MAX as nat) is None ==> listener(
            row,
        ) is None,
{
    if fields(row).len() >= 10 {
        let cell = fields(row)[1];
        if !cell.contains(':') {
            law_after_last(Seq::empty(), ':', cell);
        }
        if cell == address + seq![':'] + hex {
            law_after_last(address, ':', hex);
        }
    }
}

/// What stands behind the tenth field of a row makes no difference, and neither does anything in
/// the fields that are not looked at.
pub proof fn law_only_three_fields_count(
    row: Seq<char>,
    blank: char,
    more: Seq<char>,
    other: Seq<char>,
)
    requires
        is_white(blank),
        fields(row).len() >= 10,
    ensures
        listener(row + seq![blank] + more) == listener(row),
        listener(seq![blank] + row) == listener(row),
        fields(other).len() >= 10 && fields(other)[1] == fields(row)[1] && fields(other)[3]
            == fields(row)[3] && fields(other)[9] == fields(row)[9] ==> listener(other) == listener(
            row,
        ),
{
    law_fields_of_two_texts(row, blank, more);
    let longer = fields(row) + fields(more);
    assert(longer[1] == fields(row)[1]);
    assert(longer[3] == fields(row)[3]);
    assert(longer[9] == fields(row)[9]);
    assert((seq![blank] + row).skip(1) == row);
}

/// The first line of a table is its heading and counts for nothing, and every line behind it is a
/// row, the last one with or without a line end.
pub proof fn law_rows_of_a_table(heading: Seq<char>, rest: Seq<char>)
    requires
        !heading.contains('\n'),
    ensures
        table_rows(heading) == Seq::<Seq<char>>::empty(),
        table_rows(heading + seq!['\n'] + rest) == lines(rest),
        table_rows(Seq::<char>::empty()) == Seq::<Seq<char>>::empty(),
{
    law_lines(heading, rest);
    assert((seq![heading] + lines(rest)).drop_first() == lines(rest));
    let s = heading + seq!['\n'] + rest;
    if heading.len() > 0 {
        assert(lines(heading).drop_first() == Seq::<Seq<char>>::empty());
        if heading.last() == '\r' {
            let bare = heading.drop_last();
            assert(!bare.contains('\n')) by {
                if bare.contains('\n') {
                    let i = choose|i: int| 0 <= i < bare.len() && bare[i] == '\n';
                    assert(heading[i] == '\n');
                }
            }
            law_lines(bare, rest);
            assert(bare + seq!['\r', '\n'] + rest == s);
            assert((seq![bare] + lines(rest)).drop_first() == lines(rest));
        }
    }
}

/// Whether a row of `table`, behind its heading, shows a listener with `inode`.
pub open spec fn shows_inode(table: FileRead, inode: u64) -> bool {
    table matches FileRead::Contents(contents) && exists|i: int|
        1 <= i < lines(contents@).len() && (#[trigger] listener(lines(contents@)[i]) matches Some(
            (shown, _),
        ) && shown == inode)
}

/// Whether the row `at` of `table`, where the heading is the first, is the last one that shows a
/// listener with `inode`, and shows it with `port`.
pub open spec fn last_shows(table: FileRead, at: int, inode: u64, port: u16) -> bool {
    table matches FileRead::Contents(contents) && 1 <= at < lines(contents@).len() && listener(
        lines(contents@)[at],
    ) == Some((inode, port)) && forall|later: int|
        at < later < lines(contents@).len() ==> (#[trigger] listener(lines(contents@)[later])
            matches Some((shown, _)) ==> shown != inode)
}

proof fn lemma_table_decides(known: Map<u64, u16>, table: FileRead, at: int, inode: u64, port: u16)
    requires
        last_shows(table, at, inode, port),
    ensures
        with_table(known, table).get(inode) == Some(port),
{
    let all = lines((table->Contents_0)@);
    let rows = all.drop_first();
    assert(rows[at - 1] == all[at]);
    assert forall|later: int| at - 1 < later < rows.len() implies (#[trigger] listener(rows[later])
        matches Some((shown, _)) ==> shown != (listener(rows[at - 1])->0).0) by {
        assert(rows[later] == all[later + 1]);
        assert(listener(all[later + 1]) == listener(rows[later]));
    }
    law_last_listening_row_wins(known, rows, at - 1);
}

proof fn lemma_table_is_silent(known: Map<u64, u16>, table: FileRead, inode: u64)
    requires
        !shows_inode(table, inode),
    ensures
        with_table(known, table).get(inode) == known.get(inode),
{
    if table is Contents {
        let all = lines((table->Contents_0)@);
        if all.len() > 0 {
            let rows = all.drop_first();
            assert forall|i: int| 0 <= i < rows.len() implies (#[trigger] listener(rows[i])
                matches Some((other, _)) ==> other != inode) by {
                assert(rows[i] == all[i + 1]);
                assert(listener(all[i + 1]) == listener(rows[i]));
            }
            lemma_untouched(known, rows, inode);
        }
    }
}

/// The port behind a socket's link is the one that the tables show for its inode: that of the last
/// row that shows it in the second table, or else in the first, and none where neither shows it.
pub proof fn law_port_of_a_socket(
    inode: u64,
    target: &str,
    tcp: FileRead,
    tcp6: FileRead,
    at: int,
    port: u16,
    found: Result<Option<u16>, String>,
)
    requires
        target@ == "socket:["@ + decimal(inode as nat) + seq![']'],
        !(tcp is Failed),
        !(tcp6 is Failed),
        call_ensures(socket_port, (target, &tcp, &tcp6), found),
    ensures
        last_shows(tcp6, at, inode, port) ==> found == Ok::<Option<u16>, String>(Some(port)),
        last_shows(tcp, at, inode, port) && !shows_inode(tcp6, inode) ==> found == Ok::<
            Option<u16>,
            String,
        >(Some(port)),
        !shows_inode(tcp, inode) && !shows_inode(tcp6, inode) ==> found == Ok::<
            Option<u16>,
            String,
        >(None),
{
    law_link_of_a_socket(inode, target@);
    let first = with_table(Map::empty(), tcp);
    if last_shows(tcp6, at, inode, port) {
        lemma_table_decides(first, tcp6, at, inode, port);
    }
    if !shows_inode(tcp6, inode) {
        lemma_table_is_silent(first, tcp6, inode);
        if last_shows(tcp, at, inode, port) {
            lemma_table_decides(Map::empty(), tcp, at, inode, port);
        }
        if !shows_inode(tcp, inode) {
            lemma_table_is_silent(Map::empty(), tcp, inode);
        }
    }
}

proof fn lemma_link(digits: Seq<char>, target: Seq<char>)
    requires
        target == "socket:["@ + digits + seq![']'],
    ensures
        link_inode(target) == match number(digits, 10, u64::MAX as nat) {
            Some(inode) => Some(inode as u64),
            None => None::<u64>,
        },
{
    let prefix = "socket:["@;
    let rest = digits + seq![']'];
    assert(target == prefix + rest);
    law_prefix(prefix, rest, target);
    assert(rest.drop_last() == digits);
    assert(rest.last() == ']');
}

proof fn lemma_link_inverse(target: Seq<char>) -> (digits: Seq<char>)
    requires
        link_inode(target) is Some,
    ensures
        number(digits, 10, u64::MAX as nat) is Some,
        target == "socket:["@ + digits + seq![']'],
{
    let prefix = "socket:["@;
    law_prefix(prefix, Seq::empty(), target);
    let rest = without_prefix(target, prefix)->0;
    let digits = rest.drop_last();
    assert(rest == digits + seq![']']);
    assert(prefix + (digits + seq![']']) == prefix + digits + seq![']']);
    digits
}

/// A link names the socket whose inode stands in decimal between `socket:[` and the bracket at its
/// end, and every other link names none.
pub proof fn law_link_of_a_socket(inode: u64, target: Seq<char>)
    ensures
        target == "socket:["@ + decimal(inode as nat) + seq![']'] ==> link_inode(target) == Some(
            inode,
        ),
        link_inode(target) is Some ==> "socket:["@.is_prefix_of(target) && target.last() == ']',
        link_inode(target) is Some <==> exists|digits: Seq<char>| #[trigger]
            number(digits, 10, u64::MAX as nat) is Some && target == "socket:["@ + digits + seq![
                ']',
            ],
{
    law_decimal_is_read_back(inode as nat, u64::MAX as nat);
    if target == "socket:["@ + decimal(inode as nat) + seq![']'] {
        lemma_link(decimal(inode as nat), target);
    }
    if link_inode(target) is Some {
        let digits = lemma_link_inverse(target);
        assert(target == "socket:["@ + (digits + seq![']']));
    }
    if exists|digits: Seq<char>| #[trigger]
        number(digits, 10, u64::MAX as nat) is Some && target == "socket:["@ + digits + seq![']'] {
        let digits = choose|digits: Seq<char>| #[trigger]
            number(digits, 10, u64::MAX as nat) is Some && target == "socket:["@ + digits + seq![
                ']',
            ];
        lemma_link(digits, target);
    }
}

/// What `socket_inode` tells is the inode that the link names.
pub proof fn law_socket_inode(
    inode: u64,
    socket: &str,
    of_socket: Option<u64>,
    link: &str,
    of_link: Option<u64>,
)
    requires
        socket@ == "socket:["@ + decimal(inode as nat) + seq![']'],
        call_ensures(socket_inode, (socket,), of_socket),
        !("socket:["@.is_prefix_of(link@) && link@.last() == ']'),
        call_ensures(socket_inode, (link,), of_link),
    ensures
        of_socket == Some(inode),
        of_link is None,
{
    law_link_of_a_socket(inode, socket@);
    law_link_of_a_socket(inode, link@);
}

/// What is no socket has no port, whatever became of the tables. For a socket, the first table that
/// could not be read is an error with its reason, and one that is missing is as good as an empty
/// one.
pub proof fn law_trouble_with_the_tables(
    target: &str,
    reason: String,
    other: FileRead,
    first: Result<Option<u16>, String>,
    second: Result<Option<u16>, String>,
    missing: Result<Option<u16>, String>,
    nothing: String,
    empty: Result<Option<u16>, String>,
    missing_second: Result<Option<u16>, String>,
    empty_second: Result<Option<u16>, String>,
)
    requires
        call_ensures(socket_port, (target, &FileRead::Failed(reason), &other), first),
        call_ensures(socket_port, (target, &other, &FileRead::Failed(reason)), second),
        nothing@ == Seq::<char>::empty(),
        call_ensures(socket_port, (target, &FileRead::Missing, &other), missing),
        call_ensures(socket_port, (target, &FileRead::Contents(nothing), &other), empty),
        call_ensures(socket_port, (target, &other, &FileRead::Missing), missing_second),
        call_ensures(socket_port, (target, &other, &FileRead::Contents(nothing)), empty_second),
    ensures
        link_inode(target@) is None ==> first == Ok::<Option<u16>, String>(None) && second == Ok::<
            Option<u16>,
            String,
        >(None) && missing == Ok::<Option<u16>, String>(None),
        link_inode(target@) is Some ==> first is Err && (first->Err_0)@ == reason@,
        link_inode(target@) is Some && !(other is Failed) ==> second is Err && (second->Err_0)@
            == reason@ && missing is Ok && missing == empty && missing_second is Ok
            && missing_second == empty_second,
{
    assert(lines(nothing@).len() == 0);
}

/// What a table adds to the listeners that are known is what its rows show, one after the other:
/// the last row that shows an inode decides its port, and an inode that no row shows keeps what was
/// known of it.
pub proof fn law_table_is_added(
    contents: &str,
    listeners: &mut HashMap<u64, u16>,
    at: int,
    inode: u64,
    port: u16,
)
    requires
        call_ensures(parse_tcp_table, (contents, listeners), ()),
    ensures
        1 <= at < lines(contents@).len() && listener(lines(contents@)[at]) == Some((inode, port))
            && (forall|later: int|
            at < later < lines(contents@).len() ==> (#[trigger] listener(lines(contents@)[later])
                matches Some((shown, _)) ==> shown != inode)) ==> final(listeners)@.get(inode)
            == Some(port),
        (forall|i: int|
            1 <= i < lines(contents@).len() ==> (#[trigger] listener(lines(contents@)[i])
                matches Some((shown, _)) ==> shown != inode)) ==> final(listeners)@.get(inode)
            == old(listeners)@.get(inode),
{
    let known = old(listeners)@;
    let all = lines(contents@);
    if all.len() > 0 {
        let rows = all.drop_first();
        if 1 <= at < all.len() && listener(all[at]) == Some((inode, port)) && (forall|later: int|
            at < later < all.len() ==> (#[trigger] listener(all[later]) matches Some((shown, _))
                ==> shown != inode)) {
            assert(rows[at - 1] == all[at]);
            assert forall|later: int| at - 1 < later < rows.len() implies (#[trigger] listener(
                rows[later],
            ) matches Some((shown, _)) ==> shown != (listener(rows[at - 1])->0).0) by {
                assert(rows[later] == all[later + 1]);
                assert(listener(all[later + 1]) == listener(rows[later]));
            }
            law_last_listening_row_wins(known, rows, at - 1);
        }
        if forall|i: int|
            1 <= i < all.len() ==> (#[trigger] listener(all[i]) matches Some((shown, _)) ==> shown
                != inode) {
            assert forall|i: int| 0 <= i < rows.len() implies (#[trigger] listener(rows[i])
                matches Some((other, _)) ==> other != inode) by {
                assert(rows[i] == all[i + 1]);
                assert(listener(all[i + 1]) == listener(rows[i]));
            }
            lemma_untouched(known, rows, inode);
        }
    }
}

/// The files of a process are named by its number, and an open file by its own.
pub proof fn law_files_of_a_process(pid: i32, fd: u32, name: &str, link: String, table: String)
    requires
        pid >= 0,
        call_ensures(fd_link_path, (pid, fd), link),
        call_ensures(tcp_table_path, (pid, name), table),
    ensures
        link@ == "/proc/"@ + decimal(pid as nat) + "/fd/"@ + decimal(fd as nat),
        table@ == "/proc/"@ + decimal(pid as nat) + "/net/"@ + name@,
{
    law_sign(pid as nat);
}

/// Listeners can be discovered where both files are there, and not otherwise.
pub proof fn law_discovery_needs_both_files(directory: bool, file: bool, available: bool)
    requires
        call_ensures(proc_available, (directory, file), available),
    ensures
        available ==> directory && file,
        directory && file ==> available,
{
}

/// The listeners that are read from both tables are those that their rows show: where both show an
/// inode, the second table decides. The first table that could not be read is an error with its
/// reason, and nothing else is.
pub proof fn law_listeners_of_both_tables(
    tcp: FileRead,
    tcp6: FileRead,
    at: int,
    inode: u64,
    port: u16,
    listeners: Result<HashMap<u64, u16>, String>,
)
    requires
        call_ensures(listener_inodes, (&tcp, &tcp6), listeners),
    ensures
        listeners is Err == (tcp is Failed || tcp6 is Failed),
        tcp matches FileRead::Failed(reason) ==> (listeners->Err_0)@ == reason@,
        !(tcp is Failed) ==> (tcp6 matches FileRead::Failed(reason) ==> (listeners->Err_0)@
            == reason@),
        listeners matches Ok(found) ==> {
            &&& last_shows(tcp6, at, inode, port) ==> found@.get(inode) == Some(port)
            &&& last_shows(tcp, at, inode, port) && !shows_inode(tcp6, inode) ==> found@.get(inode)
                == Some(port)
            &&& !shows_inode(tcp, inode) && !shows_inode(tcp6, inode) ==> !found@.contains_key(
                inode,
            )
        },
{
    let first = with_table(Map::empty(), tcp);
    if last_shows(tcp6, at, inode, port) {
        lemma_table_decides(first, tcp6, at, inode, port);
    }
    if !shows_inode(tcp6, inode) {
        lemma_table_is_silent(first, tcp6, inode);
        if last_shows(tcp, at, inode, port) {
            lemma_table_decides(Map::empty(), tcp, at, inode, port);
        }
        if !shows_inode(tcp, inode) {
            lemma_table_is_silent(Map::empty(), tcp, inode);
            assert(Map::<u64, u16>::empty().get(inode) is None);
        }
    }
}

/// The port of a socket is what is known of its inode when the first table and then the second have
/// been added to no listeners at all.
pub proof fn law_port_is_read_from_both_tables(
    inode: u64,
    target: &str,
    first: String,
    first_text: &str,
    second: String,
    second_text: &str,
    with_first: &mut HashMap<u64, u16>,
    with_both: &mut HashMap<u64, u16>,
    found: Result<Option<u16>, String>,
)
    requires
        target@ == "socket:["@ + decimal(inode as nat) + seq![']'],
        first_text@ == first@,
        second_text@ == second@,
        old(with_first)@ == Map::<u64, u16>::empty(),
        call_ensures(parse_tcp_table, (first_text, with_first), ()),
        call_ensures(parse_tcp_table, (second_text, with_both), ()),
        call_ensures(
            socket_port,
            (target, &FileRead::Contents(first), &FileRead::Contents(second)),
            found,
        ),
    ensures
        old(with_both)@ == final(with_first)@ ==> found == Ok::<Option<u16>, String>(
            final(with_both)@.get(inode),
        ),
{
    law_link_of_a_socket(inode, target@);
}

} // verus!
