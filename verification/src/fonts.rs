//! The font list of a surface: the host's preferred family, then a
//! fallback chain that ends with fonts every macOS system has.

use vstd::prelude::*;
use crate::session::chars_of;
use crate::text::{is_blank, is_white_space_char};

verus! {

/// One font of a font list, by family name; `fallback` marks fonts added
/// to catch glyphs the main fonts lack.
#[derive(Debug, Clone, PartialEq, Eq)]
pub struct FontChoice {
    pub family: String,
    pub fallback: bool,
}

/// The fallback families, in the order they are tried.
pub open spec fn fallback_families() -> Seq<Seq<char>> {
    seq![
        "JetBrainsMono Nerd Font Mono"@,
        "JetBrainsMono Nerd Font"@,
        "FiraCode Nerd Font Mono"@,
        "FiraCode Nerd Font"@,
        "Hack Nerd Font Mono"@,
        "Hack Nerd Font"@,
        "Symbols Nerd Font Mono"@,
        "Symbols Nerd Font"@,
        "Apple Symbols"@,
        "Menlo"@,
        "Monaco"@,
    ]
}

/// The fallback families as exec values.
fn fallback_family_names() -> (v: Vec<&'static str>)
    ensures
        v@.len() == fallback_families().len(),
        forall|i: int| 0 <= i < v@.len() ==> #[trigger] v@[i]@ == fallback_families()[i],
{
    let v = vec![
        "JetBrainsMono Nerd Font Mono",
        "JetBrainsMono Nerd Font",
        "FiraCode Nerd Font Mono",
        "FiraCode Nerd Font",
        "Hack Nerd Font Mono",
        "Hack Nerd Font",
        "Symbols Nerd Font Mono",
        "Symbols Nerd Font",
        "Apple Symbols",
        "Menlo",
        "Monaco",
    ];
    v
}

/// The family names of a font list, by text.
pub open spec fn families(fonts: Seq<FontChoice>) -> Seq<Seq<char>> {
    fonts.map_values(|f: FontChoice| f.family@)
}

/// The fonts a font list gains at its end: every fallback family, in order,
/// that is not among `existing`.
pub open spec fn missing_fallbacks(existing: Seq<Seq<char>>, k: int) -> Seq<Seq<char>>
    decreases k,
{
    if k <= 0 {
        Seq::<Seq<char>>::empty()
    } else {
        let f = fallback_families()[k - 1];
        missing_fallbacks(existing, k - 1) + (if existing.contains(f) {
            Seq::<Seq<char>>::empty()
        } else {
            seq![f]
        })
    }
}

/// Whether the text is a family name the host really asked for: present and
/// not blank.
pub open spec fn is_requested_family(family: Option<Seq<char>>) -> bool {
    match family {
        Some(f) => !is_blank(f),
        None => false,
    }
}

/// Whether all characters of `s` are white space (`s.trim().is_empty()`).
pub fn is_blank_text(s: &str) -> (b: bool)
    ensures
        b == is_blank(s@),
{
    let chars = chars_of(s);
    let mut i: usize = 0;
    while i < chars.len()
        invariant
            chars@ == s@,
            i <= chars@.len(),
            forall|j: int| 0 <= j < i ==> crate::text::is_white_space(#[trigger] chars@[j]),
        decreases chars@.len() - i,
    {
        if !is_white_space_char(chars[i]) {
            return false;
        }
        i = i + 1;
    }
    true
}

/// Whether two texts are equal.
fn same_text(a: &str, b: &str) -> (r: bool)
    ensures
        r == (a@ == b@),
{
    let x = chars_of(a);
    let y = chars_of(b);
    if x.len() != y.len() {
        return false;
    }
    let mut i: usize = 0;
    while i < x.len()
        invariant
            x@ == a@,
            y@ == b@,
            x@.len() == y@.len(),
            i <= x@.len(),
            forall|j: int| 0 <= j < i ==> x@[j] == y@[j],
        decreases x@.len() - i,
    {
        if x[i] != y[i] {
            return false;
        }
        i = i + 1;
    }
    proof {
        assert(x@ =~= y@);
    }
    true
}

/// A font list with the host's family and the fallback chain.
///
/// Where the host names a family that is not blank, the list becomes that
/// family alone (and the caller drops its font rules, `replaced` is true);
/// otherwise the list is kept. Then every fallback family not already in the
/// list is appended, in order, as a fallback font.
pub fn font_list_plan(current: &Vec<FontChoice>, family: Option<&str>) -> (r: (Vec<FontChoice>, bool))
    ensures
        r.1 == is_requested_family(match family {
            Some(f) => Some(f@),
            None => None,
        }),
        ({
            let base = if r.1 {
                seq![family.unwrap()@]
            } else {
                families(current@)
            };
            families(r.0@) == base + missing_fallbacks(base, fallback_families().len() as int)
        }),
        r.1 ==> !r.0@[0].fallback,
        !r.1 ==> forall|i: int| 0 <= i < current@.len() ==> #[trigger] r.0@[i] == current@[i],
        forall|i: int|
            (if r.1 { 1 } else { current@.len() as int }) <= i < r.0@.len() ==> #[trigger] r.0@[i].fallback,
{
    let mut fonts: Vec<FontChoice> = Vec::new();
    let replaced = match family {
        Some(f) => !is_blank_text(f),
        None => false,
    };
    if replaced {
        fonts.push(FontChoice { family: f_to_string(family.unwrap()), fallback: false });
    } else {
        let mut i: usize = 0;
        while i < current.len()
            invariant
                i <= current@.len(),
                fonts@ =~= current@.take(i as int),
            decreases current@.len() - i,
        {
            fonts.push(current[i].clone_choice());
            i = i + 1;
        }
    }
    let ghost base = families(fonts@);
    let ghost keep = fonts@;
    proof {
        assert(base =~= (if replaced { seq![family.unwrap()@] } else { families(current@) }));
        assert(!replaced ==> keep =~= current@);
    }
    let n0 = fonts.len();
    let names = fallback_family_names();
    let mut k: usize = 0;
    while k < names.len()
        invariant
            names@.len() == fallback_families().len(),
            forall|i: int| 0 <= i < names@.len() ==> #[trigger] names@[i]@ == fallback_families()[i],
            k <= names@.len(),
            n0 == keep.len(),
            base == families(keep),
            fonts@.len() >= n0,
            fonts@.subrange(0, n0 as int) == keep,
            families(fonts@) == base + missing_fallbacks(base, k as int),
            forall|i: int| n0 <= i < fonts@.len() ==> #[trigger] fonts@[i].fallback,
            replaced ==> keep.len() == 1 && !keep[0].fallback,
            !replaced ==> keep == current@,
        decreases names@.len() - k,
    {
        let name = names[k];
        let mut present = false;
        let mut j: usize = 0;
        while j < n0
            invariant
                n0 <= fonts@.len(),
                fonts@.subrange(0, n0 as int) == keep,
                base == families(keep),
                j <= n0,
                present == exists|m: int| 0 <= m < j && #[trigger] base[m] == name@,
            decreases n0 - j,
        {
            assert(fonts@.subrange(0, n0 as int)[j as int] == fonts@[j as int]);
            assert(base[j as int] == keep[j as int].family@);
            let same = same_text(fonts[j].family.as_str(), name);
            if same {
                present = true;
            }
            proof {
                if same {
                    assert(base[j as int] == name@);
                } else {
                    assert forall|m: int| 0 <= m < j + 1 && #[trigger] base[m] == name@ implies m < j by {}
                }
            }
            j = j + 1;
        }
        proof {
            assert(present == base.contains(fallback_families()[k as int]));
        }
        let ghost before = fonts@;
        if !present {
            fonts.push(FontChoice { family: f_to_string(name), fallback: true });
        }
        proof {
            assert(fonts@.subrange(0, n0 as int) =~= keep);
            assert(names@[k as int]@ == fallback_families()[k as int]);
            if !present {
                assert(families(fonts@) =~= families(before).push(name@));
            } else {
                assert(fonts@ == before);
            }
            assert(families(fonts@) =~= base + missing_fallbacks(base, k + 1));
        }
        k = k + 1;
    }
    proof {
        if replaced {
            assert(fonts@.subrange(0, n0 as int)[0] == fonts@[0]);
        } else {
            assert forall|i: int| 0 <= i < current@.len() implies #[trigger] fonts@[i] == current@[i] by {
                assert(fonts@.subrange(0, n0 as int)[i] == fonts@[i]);
            }
        }
    }
    (fonts, replaced)
}

/// `str::to_string`: an owned copy of the text.
fn f_to_string(s: &str) -> (r: String)
    ensures
        r@ == s@,
{
    proof {
        broadcast use vstd::string::group_string_axioms;
    }
    s.to_string()
}

impl FontChoice {
    fn clone_choice(&self) -> (c: Self)
        ensures
            c == *self,
    {
        FontChoice { family: self.family.clone(), fallback: self.fallback }
    }
}

proof fn lemma_missing_fallbacks_cover(existing: Seq<Seq<char>>, n: int, k: int)
    requires
        0 <= k < n <= fallback_families().len(),
    ensures
        existing.contains(fallback_families()[k]) || missing_fallbacks(existing, n).contains(
            fallback_families()[k],
        ),
    decreases n,
{
    let f = fallback_families()[n - 1];
    let prev = missing_fallbacks(existing, n - 1);
    if k < n - 1 {
        lemma_missing_fallbacks_cover(existing, n - 1, k);
        if prev.contains(fallback_families()[k]) {
            let i = choose|i: int| 0 <= i < prev.len() && prev[i] == fallback_families()[k];
            assert(missing_fallbacks(existing, n)[i] == prev[i]);
        }
    } else if !existing.contains(f) {
        assert(missing_fallbacks(existing, n)[prev.len() as int] == f);
    }
}

/// The font list always ends in a complete fallback chain: whatever the
/// list was, every fallback family is in it after the fallbacks are added.
pub proof fn lemma_fallback_chain_complete(base: Seq<Seq<char>>)
    ensures
        forall|k: int|
            0 <= k < fallback_families().len() ==> (base + missing_fallbacks(
                base,
                fallback_families().len() as int,
            )).contains(#[trigger] fallback_families()[k]),
{
    let all = base + missing_fallbacks(base, fallback_families().len() as int);
    assert forall|k: int| 0 <= k < fallback_families().len() implies all.contains(
        #[trigger] fallback_families()[k],
    ) by {
        lemma_missing_fallbacks_cover(base, fallback_families().len() as int, k);
        let f = fallback_families()[k];
        if base.contains(f) {
            let i = choose|i: int| 0 <= i < base.len() && base[i] == f;
            assert(all[i] == f);
        } else {
            let m = missing_fallbacks(base, fallback_families().len() as int);
            let i = choose|i: int| 0 <= i < m.len() && m[i] == f;
            assert(all[base.len() + i] == f);
        }
    }
}

} // verus!
