//! How numbers, sets and maps read in a log entry.

use vstd::prelude::*;

verus! {

/// The character of a decimal digit.
pub open spec fn digit(d: nat) -> char {
    if d == 0 {
        '0'
    } else if d == 1 {
        '1'
    } else if d == 2 {
        '2'
    } else if d == 3 {
        '3'
    } else if d == 4 {
        '4'
    } else if d == 5 {
        '5'
    } else if d == 6 {
        '6'
    } else if d == 7 {
        '7'
    } else if d == 8 {
        '8'
    } else {
        '9'
    }
}

/// A number in decimal, without leading zeros.
pub open spec fn decimal(n: nat) -> Seq<char>
    decreases n,
{
    if n < 10 {
        seq![digit(n)]
    } else {
        decimal(n / 10) + seq![digit(n % 10)]
    }
}

/// A text between double quotes, as it stands.
pub open spec fn quoted(text: Seq<char>) -> Seq<char> {
    "\""@ + text + "\""@
}

/// One line for each text: the indent, the quoted text, a comma.
pub open spec fn text_lines(items: Seq<Seq<char>>, indent: Seq<char>) -> Seq<char>
    decreases items.len(),
{
    if items.len() == 0 {
        Seq::empty()
    } else {
        text_lines(items.drop_last(), indent) + indent + quoted(items.last()) + ",\n"@
    }
}

/// One line for each number: the indent, the number, a comma.
pub open spec fn number_lines(items: Seq<u64>, indent: Seq<char>) -> Seq<char>
    decreases items.len(),
{
    if items.len() == 0 {
        Seq::empty()
    } else {
        number_lines(items.drop_last(), indent) + indent + decimal(items.last() as nat) + ",\n"@
    }
}

/// A set of texts between braces, one member on each line.
pub open spec fn text_set_rendering(items: Seq<Seq<char>>) -> Seq<char> {
    if items.len() == 0 {
        "{}"@
    } else {
        "{\n"@ + text_lines(items, "    "@) + "}"@
    }
}

/// A set of numbers between braces as it stands inside a map, one member on
/// each line.
pub open spec fn inner_set_rendering(items: Seq<u64>) -> Seq<char> {
    if items.len() == 0 {
        "{}"@
    } else {
        "{\n"@ + number_lines(items, "        "@) + "    }"@
    }
}

/// One entry for each channel: the quoted channel, a colon, its packets.
pub open spec fn entry_lines(entries: Seq<(Seq<char>, Seq<u64>)>) -> Seq<char>
    decreases entries.len(),
{
    if entries.len() == 0 {
        Seq::empty()
    } else {
        entry_lines(entries.drop_last()) + "    "@ + quoted(entries.last().0) + ": "@
            + inner_set_rendering(entries.last().1) + ",\n"@
    }
}

/// A map from channels to packets between braces, one channel after the
/// other.
pub open spec fn packet_map_rendering(entries: Seq<(Seq<char>, Seq<u64>)>) -> Seq<char> {
    if entries.len() == 0 {
        "{}"@
    } else {
        "{\n"@ + entry_lines(entries) + "}"@
    }
}

fn digit_text(d: u64) -> (r: &'static str)
    requires
        d < 10,
    ensures
        r@ == seq![digit(d as nat)],
{
    proof {
        reveal_strlit("0");
        reveal_strlit("1");
        reveal_strlit("2");
        reveal_strlit("3");
        reveal_strlit("4");
        reveal_strlit("5");
        reveal_strlit("6");
        reveal_strlit("7");
        reveal_strlit("8");
        reveal_strlit("9");
    }
    let r = if d == 0 {
        "0"
    } else if d == 1 {
        "1"
    } else if d == 2 {
        "2"
    } else if d == 3 {
        "3"
    } else if d == 4 {
        "4"
    } else if d == 5 {
        "5"
    } else if d == 6 {
        "6"
    } else if d == 7 {
        "7"
    } else if d == 8 {
        "8"
    } else {
        "9"
    };
    assert(r@ =~= seq![digit(d as nat)]);
    r
}

/// A number in decimal.
pub fn decimal_text(n: u64) -> (r: String)
    ensures
        r@ == decimal(n as nat),
    decreases n,
{
    if n < 10 {
        digit_text(n).to_owned()
    } else {
        let mut s = decimal_text(n / 10);
        s.append(digit_text(n % 10));
        s
    }
}

/// A set of texts between braces, one member on each line.
pub fn render_text_set(items: &Vec<String>) -> (r: String)
    ensures
        r@ == text_set_rendering(items@.map_values(|s: String| s@)),
{
    let ghost all = items@.map_values(|s: String| s@);
    if items.len() == 0 {
        return "{}".to_owned();
    }
    let mut out = "{\n".to_owned();
    let mut i: usize = 0;
    proof {
        assert(all.take(0) =~= Seq::empty());
    }
    while i < items.len()
        invariant
            i <= items.len(),
            all == items@.map_values(|s: String| s@),
            out@ == "{\n"@ + text_lines(all.take(i as int), "    "@),
        decreases items.len() - i,
    {
        proof {
            assert(all.take(i + 1).drop_last() =~= all.take(i as int));
            assert(all.take(i + 1).last() == items@[i as int]@);
        }
        let ghost before = out@;
        out.append("    ");
        out.append("\"");
        out.append(items[i].as_str());
        out.append("\"");
        out.append(",\n");
        assert(out@ =~= "{\n"@ + text_lines(all.take(i + 1), "    "@));
        i += 1;
    }
    proof {
        assert(all.take(i as int) =~= all);
    }
    out.append("}");
    out
}

fn render_inner_set(items: &Vec<u64>) -> (r: String)
    ensures
        r@ == inner_set_rendering(items@),
{
    if items.len() == 0 {
        return "{}".to_owned();
    }
    let mut out = "{\n".to_owned();
    let mut i: usize = 0;
    proof {
        assert(items@.take(0) =~= Seq::empty());
    }
    while i < items.len()
        invariant
            i <= items.len(),
            out@ == "{\n"@ + number_lines(items@.take(i as int), "        "@),
        decreases items.len() - i,
    {
        proof {
            assert(items@.take(i + 1).drop_last() =~= items@.take(i as int));
            assert(items@.take(i + 1).last() == items@[i as int]);
        }
        out.append("        ");
        let number = decimal_text(items[i]);
        out.append(number.as_str());
        out.append(",\n");
        assert(out@ =~= "{\n"@ + number_lines(items@.take(i + 1), "        "@));
        i += 1;
    }
    proof {
        assert(items@.take(i as int) =~= items@);
    }
    out.append("    }");
    out
}

/// A map from channels to packets between braces, one channel after the
/// other.
pub fn render_packet_map(entries: &Vec<(String, Vec<u64>)>) -> (r: String)
    ensures
        r@ == packet_map_rendering(entries@.map_values(|e: (String, Vec<u64>)| (e.0@, e.1@))),
{
    let ghost all = entries@.map_values(|e: (String, Vec<u64>)| (e.0@, e.1@));
    if entries.len() == 0 {
        return "{}".to_owned();
    }
    let mut out = "{\n".to_owned();
    let mut i: usize = 0;
    proof {
        assert(all.take(0) =~= Seq::empty());
    }
    while i < entries.len()
        invariant
            i <= entries.len(),
            all == entries@.map_values(|e: (String, Vec<u64>)| (e.0@, e.1@)),
            out@ == "{\n"@ + entry_lines(all.take(i as int)),
        decreases entries.len() - i,
    {
        proof {
            assert(all.take(i + 1).drop_last() =~= all.take(i as int));
            assert(all.take(i + 1).last() == (entries@[i as int].0@, entries@[i as int].1@));
        }
        out.append("    ");
        out.append("\"");
        out.append(entries[i].0.as_str());
        out.append("\"");
        out.append(": ");
        let inner = render_inner_set(&entries[i].1);
        out.append(inner.as_str());
        out.append(",\n");
        assert(out@ =~= "{\n"@ + entry_lines(all.take(i + 1)));
        i += 1;
    }
    proof {
        assert(all.take(i as int) =~= all);
    }
    out.append("}");
    out
}

} // verus!
