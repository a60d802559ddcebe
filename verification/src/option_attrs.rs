//! Reading the options of a radio button off the attributes of an enum's
//! variants: `rename` and `alias` name the stored key, and the doc comment
//! gives the description (its first paragraph) and the tooltip (the rest).

use vstd::prelude::*;

use crate::text::str_eq;

verus! {

/// Whether `c` is white space, as Unicode's `White_Space` property says.
pub open spec fn spec_is_whitespace(c: char) -> bool {
    let u = c as u32;
    ||| (0x9 <= u && u <= 0xD)
    ||| u == 0x20
    ||| u == 0x85
    ||| u == 0xA0
    ||| u == 0x1680
    ||| (0x2000 <= u && u <= 0x200A)
    ||| u == 0x2028
    ||| u == 0x2029
    ||| u == 0x202F
    ||| u == 0x205F
    ||| u == 0x3000
}

/// Whether `c` is white space.
pub fn is_whitespace(c: char) -> (r: bool)
    ensures
        r == spec_is_whitespace(c),
{
    let u = c as u32;
    (0x9 <= u && u <= 0xD) || u == 0x20 || u == 0x85 || u == 0xA0 || u == 0x1680 || (0x2000 <= u
        && u <= 0x200A) || u == 0x2028 || u == 0x2029 || u == 0x202F || u == 0x205F || u == 0x3000
}

/// `s` without its leading white space.
pub open spec fn trim_start(s: Seq<char>) -> Seq<char>
    decreases s.len(),
{
    if s.len() > 0 && spec_is_whitespace(s[0]) {
        trim_start(s.drop_first())
    } else {
        s
    }
}

/// `s` without its trailing white space.
pub open spec fn trim_end(s: Seq<char>) -> Seq<char>
    decreases s.len(),
{
    if s.len() > 0 && spec_is_whitespace(s.last()) {
        trim_end(s.drop_last())
    } else {
        s
    }
}

/// `s` without leading and trailing white space.
pub open spec fn spec_trim(s: Seq<char>) -> Seq<char> {
    trim_end(trim_start(s))
}

/// `s` without leading and trailing white space.
pub fn trim(s: &str) -> (r: String)
    ensures
        r@ == spec_trim(s@),
{
    let n = s.unicode_len();
    let mut a: usize = 0;
    assert(s@.subrange(0, n as int) =~= s@);
    while a < n && is_whitespace(s.get_char(a))
        invariant
            n == s@.len(),
            a <= n,
            trim_start(s@) == trim_start(s@.subrange(a as int, n as int)),
        decreases n - a,
    {
        proof {
            assert(s@.subrange(a as int, n as int).drop_first() =~= s@.subrange(a + 1, n as int));
        }
        a = a + 1;
    }
    let ghost t = s@.subrange(a as int, n as int);
    assert(trim_start(s@) == t);
    let mut b: usize = n;
    while b > a && is_whitespace(s.get_char(b - 1))
        invariant
            n == s@.len(),
            a <= b <= n,
            t == s@.subrange(a as int, n as int),
            trim_end(t) == trim_end(s@.subrange(a as int, b as int)),
        decreases b - a,
    {
        proof {
            assert(s@.subrange(a as int, b as int).drop_last() =~= s@.subrange(a as int, b - 1));
        }
        b = b - 1;
    }
    String::from_str(s.substring_char(a, b))
}

/// Strings joined with `sep` between each two.
pub open spec fn spec_join(parts: Seq<Seq<char>>, sep: Seq<char>) -> Seq<char>
    decreases parts.len(),
{
    if parts.len() == 0 {
        Seq::empty()
    } else if parts.len() == 1 {
        parts[0]
    } else {
        spec_join(parts.drop_last(), sep) + sep + parts.last()
    }
}

/// The lines split into paragraphs at each empty line (two empty lines in a
/// row give an empty paragraph between them); there is always at least one.
pub open spec fn spec_groups(lines: Seq<Seq<char>>) -> Seq<Seq<Seq<char>>>
    decreases lines.len(),
{
    if lines.len() == 0 {
        seq![Seq::empty()]
    } else {
        let g = spec_groups(lines.drop_last());
        if lines.last().len() == 0 {
            g.push(Seq::empty())
        } else {
            g.update(g.len() - 1, g.last().push(lines.last()))
        }
    }
}

proof fn lemma_groups_nonempty(lines: Seq<Seq<char>>)
    ensures
        spec_groups(lines).len() >= 1,
    decreases lines.len(),
{
    if lines.len() > 0 {
        lemma_groups_nonempty(lines.drop_last());
    }
}

/// The paragraphs of the lines, the lines of each joined by spaces.
pub open spec fn spec_paragraphs(lines: Seq<Seq<char>>) -> Seq<Seq<char>> {
    spec_groups(lines).map_values(|g: Seq<Seq<char>>| spec_join(g, " "@))
}

/// The description: the first paragraph.
pub open spec fn spec_description(lines: Seq<Seq<char>>) -> Seq<char> {
    spec_paragraphs(lines)[0]
}

/// The tooltip: the other paragraphs, one per line, without surrounding
/// white space.
pub open spec fn spec_tooltip(lines: Seq<Seq<char>>) -> Seq<char> {
    spec_trim(spec_join(spec_paragraphs(lines).drop_first(), "\n"@))
}

/// The characters of each string.
pub open spec fn views(v: Seq<String>) -> Seq<Seq<char>> {
    v.map_values(|s: String| s@)
}

/// Splits doc lines into a description, the first paragraph with its lines
/// joined by spaces, and a tooltip, the further paragraphs joined by line
/// breaks and trimmed.
pub fn lines_description_tooltip(lines: &[String]) -> (r: (String, String))
    ensures
        r.0@ == spec_description(views(lines@)),
        r.1@ == spec_tooltip(views(lines@)),
{
    let ghost ls = views(lines@);
    let ghost sp = " "@;
    let mut paras: Vec<String> = Vec::new();
    paras.push(String::new());
    let mut cur_empty = true;
    let mut i: usize = 0;
    proof {
        reveal_strlit(" ");
        assert(views(paras@) =~= spec_paragraphs(ls.take(0)));
    }
    while i < lines.len()
        invariant
            ls == views(lines@),
            i <= lines@.len(),
            paras@.len() >= 1,
            views(paras@) == spec_paragraphs(ls.take(i as int)),
            spec_groups(ls.take(i as int)).len() >= 1,
            cur_empty == (spec_groups(ls.take(i as int)).last().len() == 0),
        decreases lines@.len() - i,
    {
        let ghost prev = ls.take(i as int);
        let ghost g = spec_groups(prev);
        proof {
            assert(ls.take(i + 1).drop_last() =~= prev);
            assert(ls.take(i + 1).last() == lines@[i as int]@);
        }
        let l = &lines[i];
        let ghost old_paras = paras@;
        proof {
            assert(views(old_paras).len() == old_paras.len());
            assert(spec_paragraphs(prev).len() == g.len());
            assert(old_paras.len() == g.len());
        }
        if l.as_str().unicode_len() == 0 {
            paras.push(String::new());
            cur_empty = true;
            proof {
                assert(ls.take(i + 1).last().len() == 0);
                assert(spec_groups(ls.take(i + 1)) == g.push(Seq::empty()));
                assert(spec_join(Seq::<Seq<char>>::empty(), " "@) == Seq::<char>::empty());
                assert(views(paras@) =~= views(old_paras).push(Seq::<char>::empty()));
                assert(spec_paragraphs(ls.take(i + 1)) =~= spec_paragraphs(prev).push(
                    Seq::<char>::empty(),
                ));
            }
        } else {
            let last = paras.pop().unwrap();
            proof {
                assert(ls.take(i + 1).last().len() != 0);
                assert(last == old_paras[old_paras.len() - 1]);
                assert(views(old_paras)[old_paras.len() - 1] == last@);
                assert(spec_paragraphs(prev)[g.len() - 1] == spec_join(g.last(), " "@));
                assert(last@ == spec_join(g.last(), " "@));
            }
            let joined = if cur_empty {
                String::from_str(l.as_str())
            } else {
                let with_space = last.concat(" ");
                with_space.concat(l.as_str())
            };
            proof {
                let gl = g.last();
                assert(gl.push(l@).drop_last() =~= gl);
                assert(gl.push(l@).last() == l@);
                assert(joined@ == spec_join(gl.push(l@), " "@));
            }
            paras.push(joined);
            cur_empty = false;
            proof {
                let gl = g.last();
                assert(spec_groups(ls.take(i + 1)) == g.update(g.len() - 1, gl.push(l@)));
                assert(views(paras@) =~= views(old_paras).update(
                    old_paras.len() - 1,
                    spec_join(gl.push(l@), " "@),
                ));
                assert(spec_paragraphs(ls.take(i + 1)) =~= spec_paragraphs(prev).update(
                    g.len() - 1,
                    spec_join(gl.push(l@), " "@),
                ));
            }
        }
        i = i + 1;
    }
    proof {
        assert(ls.take(lines@.len() as int) =~= ls);
    }
    let description = paras[0].clone();
    let mut tip = String::new();
    let mut k: usize = 1;
    let ghost rest = views(paras@).drop_first();
    proof {
        reveal_strlit("\n");
        assert(rest.take(0) =~= Seq::<Seq<char>>::empty());
    }
    while k < paras.len()
        invariant
            1 <= k <= paras@.len(),
            rest == views(paras@).drop_first(),
            tip@ == spec_join(rest.take(k - 1), "\n"@),
        decreases paras@.len() - k,
    {
        proof {
            assert(rest.take(k as int).drop_last() =~= rest.take(k - 1));
        }
        if k == 1 {
            tip = String::from_str(paras[k].as_str());
        } else {
            let t = tip.concat("\n");
            tip = t.concat(paras[k].as_str());
        }
        k = k + 1;
    }
    proof {
        assert(rest.take(paras@.len() - 1) =~= rest);
    }
    let tooltip = trim(tip.as_str());
    (description, tooltip)
}

/// An attribute of an enum variant, as far as it names options: `name = "value"`,
/// or any other form.
pub enum Attr {
    NameValueStr { name: String, value: String },
    Other,
}

/// The value of the first attribute `name = "..."`, trimmed.
pub open spec fn spec_first_named(attrs: Seq<Attr>, name: Seq<char>) -> Option<Seq<char>>
    decreases attrs.len(),
{
    if attrs.len() == 0 {
        None
    } else {
        match attrs[0] {
            Attr::NameValueStr { name: n, value: v } if n@ == name => Some(spec_trim(v@)),
            _ => spec_first_named(attrs.drop_first(), name),
        }
    }
}

/// The values of the attributes `doc = "..."`, trimmed, in order.
pub open spec fn spec_doc_lines(attrs: Seq<Attr>) -> Seq<Seq<char>>
    decreases attrs.len(),
{
    if attrs.len() == 0 {
        Seq::empty()
    } else {
        let rest = spec_doc_lines(attrs.drop_last());
        match attrs.last() {
            Attr::NameValueStr { name: n, value: v } if n@ == "doc"@ => rest.push(spec_trim(v@)),
            _ => rest,
        }
    }
}

/// What the attributes of a variant say of its option.
#[derive(Clone, Debug, PartialEq, Eq)]
pub struct OptionAttrs {
    pub rename: Option<String>,
    pub alias: Option<String>,
    pub description: String,
    pub tooltip: String,
}

/// An optional string by its characters.
pub open spec fn opt_chars(m: Option<String>) -> Option<Seq<char>> {
    match m {
        Some(s) => Some(s@),
        None => None,
    }
}

/// Reads `rename`, `alias` and the doc comment off the attributes of a variant.
pub fn option_attrs(attrs: &[Attr]) -> (r: OptionAttrs)
    ensures
        opt_chars(r.rename) == spec_first_named(attrs@, "rename"@),
        opt_chars(r.alias) == spec_first_named(attrs@, "alias"@),
        r.description@ == spec_description(spec_doc_lines(attrs@)),
        r.tooltip@ == spec_tooltip(spec_doc_lines(attrs@)),
{
    let ghost a = attrs@;
    let mut rename: Option<String> = None;
    let mut alias: Option<String> = None;
    let mut doc_lines: Vec<String> = Vec::new();
    let mut i: usize = 0;
    proof {
        reveal_strlit("rename");
        reveal_strlit("alias");
        reveal_strlit("doc");
        assert(a.skip(0) =~= a);
        assert("doc"@.len() == 3 && "rename"@.len() == 6 && "alias"@.len() == 5);
    }
    while i < attrs.len()
        invariant
            a == attrs@,
            i <= a.len(),
            spec_first_named(a, "rename"@) == match rename {
                Some(s) => Some(s@),
                None => spec_first_named(a.skip(i as int), "rename"@),
            },
            spec_first_named(a, "alias"@) == match alias {
                Some(s) => Some(s@),
                None => spec_first_named(a.skip(i as int), "alias"@),
            },
            views(doc_lines@) == spec_doc_lines(a.take(i as int)),
        decreases a.len() - i,
    {
        proof {
            reveal_strlit("rename");
            reveal_strlit("alias");
            reveal_strlit("doc");
            assert("doc"@.len() == 3 && "rename"@.len() == 6 && "alias"@.len() == 5);
            assert(a.skip(i as int).drop_first() =~= a.skip(i + 1));
            assert(a.skip(i as int)[0] == a[i as int]);
            assert(a.take(i + 1).drop_last() =~= a.take(i as int));
            assert(a.take(i + 1).last() == a[i as int]);
        }
        match &attrs[i] {
            Attr::NameValueStr { name, value } => {
                if str_eq(name.as_str(), "doc") {
                    let t = trim(value.as_str());
                    doc_lines.push(t);
                    proof {
                        assert(views(doc_lines@) =~= spec_doc_lines(a.take(i + 1)));
                    }
                } else {
                    proof {
                        assert(views(doc_lines@) =~= spec_doc_lines(a.take(i + 1)));
                    }
                    if str_eq(name.as_str(), "rename") {
                        if rename.is_none() {
                            rename = Some(trim(value.as_str()));
                        }
                    } else if str_eq(name.as_str(), "alias") {
                        if alias.is_none() {
                            alias = Some(trim(value.as_str()));
                        }
                    }
                }
            },
            Attr::Other => {
                proof {
                    assert(views(doc_lines@) =~= spec_doc_lines(a.take(i + 1)));
                }
            },
        }
        i = i + 1;
    }
    proof {
        assert(a.take(a.len() as int) =~= a);
    }
    let (description, tooltip) = lines_description_tooltip(doc_lines.as_slice());
    OptionAttrs { rename, alias, description, tooltip }
}

/// The radio-button option that a variant's attributes describe.
pub struct OptionEntry {
    pub key: String,
    pub alias: Option<String>,
    pub description: String,
    pub tooltip: Option<String>,
}

/// The key of a variant's option: its `rename`, else its name.
pub open spec fn spec_entry_key(variant: Seq<char>, attrs: Seq<Attr>) -> Seq<char> {
    match spec_first_named(attrs, "rename"@) {
        Some(r) => r,
        None => variant,
    }
}

/// The alias of a variant's option: its `alias`, else its name when renamed.
pub open spec fn spec_entry_alias(variant: Seq<char>, attrs: Seq<Attr>) -> Option<Seq<char>> {
    match spec_first_named(attrs, "alias"@) {
        Some(a) => Some(a),
        None => match spec_first_named(attrs, "rename"@) {
            Some(_) => Some(variant),
            None => None,
        },
    }
}

/// The option that a variant named `variant` with attributes `attrs` gets:
/// the key is the `rename`, else the name; the alias is the `alias`, else the
/// name when renamed; the description is the doc comment's first paragraph,
/// else the key; the tooltip is the rest of the doc comment, if any.
pub fn variant_option(variant: &str, attrs: &[Attr]) -> (r: OptionEntry)
    ensures
        r.key@ == spec_entry_key(variant@, attrs@),
        opt_chars(r.alias) == spec_entry_alias(variant@, attrs@),
        r.description@ == if spec_description(spec_doc_lines(attrs@)).len() == 0 {
            spec_entry_key(variant@, attrs@)
        } else {
            spec_description(spec_doc_lines(attrs@))
        },
        opt_chars(r.tooltip) == if spec_tooltip(spec_doc_lines(attrs@)).len() == 0 {
            None
        } else {
            Some(spec_tooltip(spec_doc_lines(attrs@)))
        },
{
    let oa = option_attrs(attrs);
    let alias = match oa.alias {
        Some(a) => Some(a),
        None => match &oa.rename {
            Some(_) => Some(String::from_str(variant)),
            None => None,
        },
    };
    let key = match oa.rename {
        Some(r) => r,
        None => String::from_str(variant),
    };
    let description = if oa.description.as_str().unicode_len() == 0 {
        key.clone()
    } else {
        oa.description
    };
    let tooltip = if oa.tooltip.as_str().unicode_len() == 0 {
        None
    } else {
        Some(oa.tooltip)
    };
    OptionEntry { key, alias, description, tooltip }
}

} // verus!
