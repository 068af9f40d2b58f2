//! Process-wide product identity for the launcher and its dedicated helpers.
//! Select it at executable startup, before using any sandbox functionality.

use crate::native::{chars_of, same_text};
use crate::windows::failure::{Failure, FailureModel};
use vstd::prelude::*;
use vstd::string::*;

verus! {

/// A globally unique identifier. The last eight bytes are one big-endian number.
#[derive(Clone, Copy, Debug, PartialEq, Eq, Structural)]
pub struct Guid {
    pub data1: u32,
    pub data2: u16,
    pub data3: u16,
    pub data4: u64,
}

/// Fixed namespace transform. Never change it after installation.
pub const CONSOLE_KEY_TRANSFORM: u32 = 0xa71c_093e;

/// Selects independent accounts, helpers, and kernel object names for a host product.
#[derive(Clone, Copy, Debug, PartialEq, Eq, Structural)]
pub enum WindowsSandboxProduct {
    Codex,
    Console,
}

impl Default for WindowsSandboxProduct {
    fn default() -> (result: Self)
        ensures
            result == WindowsSandboxProduct::Codex,
    {
        WindowsSandboxProduct::Codex
    }
}

/// The product that a process selected, once it did.
#[derive(Clone, Copy, Debug, PartialEq, Eq, Structural)]
pub struct ProductSelection {
    selected: Option<WindowsSandboxProduct>,
}

impl ProductSelection {
    /// The product that was selected.
    pub closed spec fn selection(self) -> Option<WindowsSandboxProduct> {
        self.selected
    }

    /// A process that has not selected a product.
    pub fn new() -> (result: Self)
        ensures
            result.selection() is None,
    {
        ProductSelection { selected: None }
    }

    fn get_or_select(&mut self, product: WindowsSandboxProduct) -> (result: WindowsSandboxProduct)
        ensures
            match old(self).selection() {
                Some(selected) => result == selected,
                None => result == product,
            },
            final(self).selection() == Some(result),
    {
        match self.selected {
            Some(selected) => selected,
            None => {
                self.selected = Some(product);
                product
            },
        }
    }
}

/// Whether a text starts with a word.
pub open spec fn leads(text: Seq<char>, word: Seq<char>) -> bool {
    word.is_prefix_of(text)
}

/// Every occurrence of `from`, from left to right, replaced by `to`.
pub open spec fn replaced(text: Seq<char>, from: Seq<char>, to: Seq<char>) -> Seq<char>
    decreases text.len(),
{
    if text.len() == 0 {
        Seq::empty()
    } else if from.len() > 0 && leads(text, from) {
        to + replaced(text.skip(from.len() as int), from, to)
    } else {
        seq![text[0]] + replaced(text.skip(1), from, to)
    }
}

/// The name of a shared resource in Console's namespace.
pub open spec fn console_name(name: Seq<char>) -> Seq<char> {
    if name == "CodexSandboxOffline"@ {
        "McpConsoleSandboxOff"@
    } else if name == "CodexSandboxOnline"@ {
        "McpConsoleSandboxOn"@
    } else if name == "codex-windows-sandbox-setup.exe"@ {
        "mcp-console-sandbox-setup.exe"@
    } else if name == "codex-command-runner.exe"@ {
        "mcp-console-sandbox-runner.exe"@
    } else {
        replaced(replaced(name, "Codex"@, "Console"@), "codex"@, "console"@)
    }
}

fn matches_at(text: &Vec<char>, start: usize, word: &Vec<char>) -> (result: bool)
    requires
        start <= text@.len(),
    ensures
        result == leads(text@.skip(start as int), word@),
{
    let ghost rest = text@.skip(start as int);
    if word.len() > text.len() - start {
        return false;
    }
    for index in 0..word.len()
        invariant
            start + word@.len() <= text@.len(),
            rest == text@.skip(start as int),
            forall|i: int| 0 <= i < index ==> word@[i] == rest[i],
    {
        assert(start + index < text.len());
        if word[index] != text[start + index] {
            assert(rest[index as int] == text@[start + index]);
            assert(rest.subrange(0, word@.len() as int)[index as int] == rest[index as int]);
            return false;
        }
        assert(rest[index as int] == text@[start + index]);
    }
    assert(word@ =~= rest.subrange(0, word@.len() as int));
    true
}

/// Replaces every occurrence of a word.
fn replace_word(text: &str, from: &str, to: &str) -> (result: String)
    requires
        from@.len() > 0,
    ensures
        result@ == replaced(text@, from@, to@),
{
    let chars = chars_of(text);
    let word = chars_of(from);
    let mut result = String::new();
    let mut index: usize = 0;
    assert(chars@.skip(0) =~= chars@);
    assert(result@ + replaced(text@, from@, to@) =~= replaced(text@, from@, to@));
    while index < chars.len()
        invariant
            chars@ == text@,
            word@ == from@,
            from@.len() > 0,
            index <= chars@.len(),
            result@ + replaced(chars@.skip(index as int), from@, to@) == replaced(text@, from@, to@),
        decreases chars@.len() - index,
    {
        let ghost rest = chars@.skip(index as int);
        let ghost before = result@;
        if matches_at(&chars, index, &word) {
            result.append(to);
            assert(rest.skip(from@.len() as int) =~= chars@.skip(index + from@.len()));
            index += word.len();
            assert(result@ + replaced(chars@.skip(index as int), from@, to@) =~= before + replaced(
                rest,
                from@,
                to@,
            ));
        } else {
            result.push(chars[index]);
            assert(rest.skip(1) =~= chars@.skip(index + 1));
            index += 1;
            assert(result@ + replaced(chars@.skip(index as int), from@, to@) =~= before + replaced(
                rest,
                from@,
                to@,
            ));
        }
    }
    assert(chars@.skip(index as int) =~= Seq::empty());
    assert(result@ + Seq::<char>::empty() =~= result@);
    result
}

impl WindowsSandboxProduct {
    /// Selects the product of a process. Must be called before the first sandbox
    /// operation. The selection cannot change.
    pub fn initialize(self, selection: &mut ProductSelection) -> (result: Result<(), Failure>)
        ensures
            match old(selection).selection() {
                Some(selected) => {
                    &&& final(selection).selection() == Some(selected)
                    &&& result is Ok <==> selected == self
                },
                None => final(selection).selection() == Some(self) && result is Ok,
            },
            result matches Err(failure) ==> failure@ == FailureModel::plain(
                "Windows sandbox product was already initialized differently"@,
            ),
    {
        if selection.get_or_select(self) != self {
            return Err(Failure::new("Windows sandbox product was already initialized differently"));
        }
        Ok(())
    }

    /// The product of a process. Existing callers default to Codex and retain their
    /// installed resource identities.
    pub fn current(selection: &mut ProductSelection) -> (result: Self)
        ensures
            result == match old(selection).selection() {
                Some(selected) => selected,
                None => WindowsSandboxProduct::Codex,
            },
            final(selection).selection() == Some(result),
    {
        selection.get_or_select(WindowsSandboxProduct::Codex)
    }

    /// The name of a shared resource in this product's namespace.
    pub open spec fn mapped(self, name: Seq<char>) -> Seq<char> {
        match self {
            WindowsSandboxProduct::Codex => name,
            WindowsSandboxProduct::Console => console_name(name),
        }
    }

    /// Maps a shared backend resource name into this product's stable namespace.
    pub fn name(self, name: &str) -> (result: String)
        ensures
            result@ == self.mapped(name@),
    {
        match self {
            WindowsSandboxProduct::Codex => name.to_owned(),
            WindowsSandboxProduct::Console => {
                // Account login names are limited to twenty characters.
                if same_text(name, "CodexSandboxOffline") {
                    "McpConsoleSandboxOff".to_owned()
                } else if same_text(name, "CodexSandboxOnline") {
                    "McpConsoleSandboxOn".to_owned()
                } else if same_text(name, "codex-windows-sandbox-setup.exe") {
                    "mcp-console-sandbox-setup.exe".to_owned()
                } else if same_text(name, "codex-command-runner.exe") {
                    "mcp-console-sandbox-runner.exe".to_owned()
                } else {
                    proof {
                        reveal_strlit("Codex");
                        reveal_strlit("codex");
                    }
                    let renamed = replace_word(name, "Codex", "Console");
                    replace_word(renamed.as_str(), "codex", "console")
                }
            },
        }
    }

    /// The product's own identity of a persistent filtering object.
    pub open spec fn mapped_key(self, key: Guid) -> Guid {
        match self {
            WindowsSandboxProduct::Codex => key,
            WindowsSandboxProduct::Console => Guid { data1: key.data1 ^ CONSOLE_KEY_TRANSFORM, ..key },
        }
    }

    /// Keeps Console's persistent filtering objects separate from existing Codex filters.
    pub fn wfp_key(self, key: Guid) -> (result: Guid)
        ensures
            result == self.mapped_key(key),
    {
        match self {
            WindowsSandboxProduct::Codex => key,
            WindowsSandboxProduct::Console => Guid {
                data1: key.data1 ^ CONSOLE_KEY_TRANSFORM,
                data2: key.data2,
                data3: key.data3,
                data4: key.data4,
            },
        }
    }
}

/// Resolves a backend resource name using the process's immutable product selection.
pub fn sandbox_name(selection: &mut ProductSelection, name: &str) -> (result: String)
    ensures
        result@ == (match old(selection).selection() {
            Some(selected) => selected,
            None => WindowsSandboxProduct::Codex,
        }).mapped(name@),
        final(selection).selection() is Some,
        old(selection).selection() is Some ==> final(selection).selection() == old(selection).selection(),
{
    let product = WindowsSandboxProduct::current(selection);
    product.name(name)
}

/// The key transform is its own inverse, and it moves every key.
pub proof fn key_transform_is_an_involution(key: Guid)
    ensures
        WindowsSandboxProduct::Console.mapped_key(WindowsSandboxProduct::Console.mapped_key(key)) == key,
        WindowsSandboxProduct::Console.mapped_key(key) != WindowsSandboxProduct::Codex.mapped_key(key),
{
    let first = key.data1;
    assert((first ^ 0xa71c_093eu32) ^ 0xa71c_093eu32 == first) by (bit_vector);
    assert(first ^ 0xa71c_093eu32 != first) by (bit_vector);
}

/// Whether a word stands in a text at an offset.
pub open spec fn stands_at(text: Seq<char>, word: Seq<char>, offset: int) -> bool {
    0 <= offset && offset + word.len() <= text.len() && text.subrange(offset, offset + word.len()) == word
}

/// Whether a word stands anywhere in a text.
pub open spec fn mentions(text: Seq<char>, word: Seq<char>) -> bool {
    exists|offset: int| stands_at(text, word, offset)
}

/// A word that does not hold the first character of the replacement can only lead the
/// outcome of a replacement if it led the text.
proof fn lemma_lead_was_there(text: Seq<char>, from: Seq<char>, to: Seq<char>, word: Seq<char>)
    requires
        from.len() > 0,
        to.len() > 0,
        !word.contains(to[0]),
        leads(replaced(text, from, to), word),
    ensures
        leads(text, word),
    decreases word.len(),
{
    if word.len() == 0 {
        assert(text.subrange(0, 0) =~= word);
    } else {
        let outcome = replaced(text, from, to);
        assert(outcome.subrange(0, word.len() as int)[0] == word[0]);
        assert(outcome[0] == word[0]);
        assert(word[0] != to[0]) by {
            if word[0] == to[0] {
                assert(word.contains(to[0]));
            }
        }
        assert(text.len() > 0);
        if leads(text, from) {
            assert(outcome[0] == to[0]);
        }
        let rest = replaced(text.skip(1), from, to);
        assert(outcome =~= seq![text[0]] + rest);
        let tail = word.skip(1);
        assert(leads(rest, tail)) by {
            assert forall|i: int| 0 <= i < tail.len() implies tail[i] == rest[i] by {
                assert(outcome.subrange(0, word.len() as int)[i + 1] == word[i + 1]);
            }
            assert(tail =~= rest.subrange(0, tail.len() as int));
        }
        assert(!tail.contains(to[0])) by {
            if tail.contains(to[0]) {
                let i = choose|i: int| 0 <= i < tail.len() && tail[i] == to[0];
                assert(word[i + 1] == to[0]);
            }
        }
        lemma_lead_was_there(text.skip(1), from, to, tail);
        assert(leads(text, word)) by {
            assert forall|i: int| 0 <= i < word.len() implies word[i] == text[i] by {
                if i > 0 {
                    assert(text.skip(1).subrange(0, tail.len() as int)[i - 1] == tail[i - 1]);
                }
            }
            assert(word =~= text.subrange(0, word.len() as int));
        }
    }
}

/// A word is gone after a replacement if it was not there or is the one replaced, the
/// replacement brings it in nowhere, and only its first character can start it.
proof fn lemma_word_is_gone(text: Seq<char>, from: Seq<char>, to: Seq<char>, word: Seq<char>)
    requires
        from.len() > 0,
        to.len() >= word.len() > 0,
        !word.skip(1).contains(to[0]),
        forall|i: int| 0 < i < to.len() ==> to[i] != word[0],
        !leads(to, word),
        word == from || !mentions(text, word),
    ensures
        !mentions(replaced(text, from, to), word),
    decreases text.len(),
{
    let outcome = replaced(text, from, to);
    if mentions(outcome, word) {
        let offset = choose|offset: int| stands_at(outcome, word, offset);
        assert(outcome.subrange(offset, offset + word.len())[0] == word[0]);
        assert(outcome[offset] == word[0]);
        if text.len() > 0 {
            if leads(text, from) {
                let after = text.skip(from.len() as int);
                let rest = replaced(after, from, to);
                assert(word != from ==> !mentions(after, word)) by {
                    if word != from && mentions(after, word) {
                        let place = choose|place: int| stands_at(after, word, place);
                        assert(text.subrange(place + from.len(), place + from.len() + word.len()) =~= after.subrange(
                            place,
                            place + word.len(),
                        ));
                        assert(stands_at(text, word, place + from.len()));
                    }
                }
                lemma_word_is_gone(after, from, to, word);
                if offset >= to.len() {
                    assert(rest.subrange(offset - to.len(), offset - to.len() + word.len()) =~= outcome.subrange(
                        offset,
                        offset + word.len(),
                    ));
                    assert(stands_at(rest, word, offset - to.len()));
                } else {
                    assert(outcome[offset] == to[offset]);
                    assert(offset == 0);
                    assert(to.subrange(0, word.len() as int) =~= outcome.subrange(0, word.len() as int));
                    assert(leads(to, word));
                }
            } else {
                let after = text.skip(1);
                let rest = replaced(after, from, to);
                assert(word != from ==> !mentions(after, word)) by {
                    if word != from && mentions(after, word) {
                        let place = choose|place: int| stands_at(after, word, place);
                        assert(text.subrange(place + 1, place + 1 + word.len()) =~= after.subrange(
                            place,
                            place + word.len(),
                        ));
                        assert(stands_at(text, word, place + 1));
                    }
                }
                lemma_word_is_gone(after, from, to, word);
                if offset > 0 {
                    assert(rest.subrange(offset - 1, offset - 1 + word.len()) =~= outcome.subrange(
                        offset,
                        offset + word.len(),
                    ));
                    assert(stands_at(rest, word, offset - 1));
                } else {
                    let tail = word.skip(1);
                    assert(leads(rest, tail)) by {
                        assert forall|i: int| 0 <= i < tail.len() implies tail[i] == rest[i] by {
                            assert(outcome.subrange(0, word.len() as int)[i + 1] == word[i + 1]);
                        }
                        assert(tail =~= rest.subrange(0, tail.len() as int));
                    }
                    lemma_lead_was_there(after, from, to, tail);
                    assert(leads(text, word)) by {
                        assert forall|i: int| 0 <= i < word.len() implies word[i] == text[i] by {
                            if i > 0 {
                                assert(after.subrange(0, tail.len() as int)[i - 1] == tail[i - 1]);
                            }
                        }
                        assert(word =~= text.subrange(0, word.len() as int));
                    }
                    assert(stands_at(text, word, 0));
                }
            }
        }
    }
}

/// No name in Console's namespace mentions Codex, so none of them is the name of a
/// Codex resource that does.
pub proof fn console_names_never_mention_codex(name: Seq<char>)
    ensures
        !mentions(WindowsSandboxProduct::Console.mapped(name), "Codex"@),
        !mentions(WindowsSandboxProduct::Console.mapped(name), "codex"@),
{
    reveal_strlit("Codex");
    reveal_strlit("codex");
    reveal_strlit("Console");
    reveal_strlit("console");
    let upper = "Codex"@;
    let lower = "codex"@;
    let outcome = console_name(name);
    if name == "CodexSandboxOffline"@ || name == "CodexSandboxOnline"@ || name
        == "codex-windows-sandbox-setup.exe"@ || name == "codex-command-runner.exe"@ {
        reveal_strlit("McpConsoleSandboxOff");
        reveal_strlit("McpConsoleSandboxOn");
        reveal_strlit("mcp-console-sandbox-setup.exe");
        reveal_strlit("mcp-console-sandbox-runner.exe");
        assert forall|offset: int| !stands_at(outcome, upper, offset) && !stands_at(outcome, lower, offset) by {
            if stands_at(outcome, upper, offset) {
                let part = outcome.subrange(offset, offset + 5);
                assert(part[2] == 'd' && part[3] == 'e');
                assert(outcome[offset + 2] == 'd' && outcome[offset + 3] == 'e');
            }
            if stands_at(outcome, lower, offset) {
                let part = outcome.subrange(offset, offset + 5);
                assert(part[2] == 'd' && part[3] == 'e');
                assert(outcome[offset + 2] == 'd' && outcome[offset + 3] == 'e');
            }
        }
    } else {
        let middle = replaced(name, upper, "Console"@);
        assert(!leads("Console"@, upper)) by {
            assert("Console"@.subrange(0, 5)[2] != upper[2]);
        }
        assert(!leads("console"@, lower)) by {
            assert("console"@.subrange(0, 5)[2] != lower[2]);
        }
        assert(!leads("console"@, upper)) by {
            assert("console"@.subrange(0, 5)[0] != upper[0]);
        }
        assert(!upper.skip(1).contains('C'));
        assert(!lower.skip(1).contains('c'));
        assert(!upper.skip(1).contains('c'));
        lemma_word_is_gone(name, upper, "Console"@, upper);
        lemma_word_is_gone(middle, lower, "console"@, lower);
        lemma_word_is_gone(middle, lower, "console"@, upper);
    }
}

proof fn lemma_nothing_to_replace(text: Seq<char>, from: Seq<char>, to: Seq<char>)
    requires
        from.len() > 0,
        !mentions(text, from),
    ensures
        replaced(text, from, to) == text,
    decreases text.len(),
{
    if text.len() > 0 {
        let rest = text.skip(1);
        if leads(text, from) {
            assert(text.subrange(0, from.len() as int) =~= from);
            assert(stands_at(text, from, 0));
        }
        if mentions(rest, from) {
            let offset = choose|offset: int| stands_at(rest, from, offset);
            assert(text.subrange(offset + 1, offset + 1 + from.len()) =~= rest.subrange(offset, offset + from.len()));
            assert(stands_at(text, from, offset + 1));
        }
        lemma_nothing_to_replace(rest, from, to);
        assert(seq![text[0]] + rest =~= text);
    } else {
        assert(text =~= Seq::empty());
    }
}

/// Codex keeps every name. Console keeps what does not mention Codex, and puts its own
/// name in the place of Codex at the start of a name that mentions it there only.
pub proof fn console_names_keep_what_is_not_codex(name: Seq<char>, rest: Seq<char>)
    requires
        !mentions(rest, "Codex"@),
        !mentions(rest, "codex"@),
    ensures
        WindowsSandboxProduct::Codex.mapped(name) == name,
        WindowsSandboxProduct::Console.mapped(rest) == rest,
        name == "Codex"@ + rest && name != "CodexSandboxOffline"@ && name != "CodexSandboxOnline"@
            ==> WindowsSandboxProduct::Console.mapped(name) == "Console"@ + rest,
        WindowsSandboxProduct::Console.mapped("CodexSandboxOffline"@) == "McpConsoleSandboxOff"@,
        WindowsSandboxProduct::Console.mapped("CodexSandboxOnline"@) == "McpConsoleSandboxOn"@,
        WindowsSandboxProduct::Console.mapped("codex-windows-sandbox-setup.exe"@)
            == "mcp-console-sandbox-setup.exe"@,
        WindowsSandboxProduct::Console.mapped("codex-command-runner.exe"@) == "mcp-console-sandbox-runner.exe"@,
{
    reveal_strlit("Codex");
    reveal_strlit("codex");
    reveal_strlit("Console");
    reveal_strlit("CodexSandboxOffline");
    reveal_strlit("CodexSandboxOnline");
    reveal_strlit("codex-windows-sandbox-setup.exe");
    reveal_strlit("codex-command-runner.exe");
    let upper = "Codex"@;
    let lower = "codex"@;
    if rest == "CodexSandboxOffline"@ || rest == "CodexSandboxOnline"@ {
        assert(rest.subrange(0, 5) =~= upper);
        assert(stands_at(rest, upper, 0));
    }
    if rest == "codex-windows-sandbox-setup.exe"@ || rest == "codex-command-runner.exe"@ {
        assert(rest.subrange(0, 5) =~= lower);
        assert(stands_at(rest, lower, 0));
    }
    lemma_nothing_to_replace(rest, upper, "Console"@);
    lemma_nothing_to_replace(rest, lower, "console"@);
    if name == upper + rest {
        assert(name[0] == 'C');
        assert(name.subrange(0, 5) =~= upper);
        assert(leads(name, upper));
        assert(name.skip(5) =~= rest);
        let first = "Console"@ + rest;
        assert(replaced(name, upper, "Console"@) == first);
        if mentions(first, lower) {
            let offset = choose|offset: int| stands_at(first, lower, offset);
            assert(first.subrange(offset, offset + 5)[0] == 'c');
            assert(first[offset] == 'c');
            assert(offset >= 7);
            assert(rest.subrange(offset - 7, offset - 2) =~= first.subrange(offset, offset + 5));
            assert(stands_at(rest, lower, offset - 7));
        }
        lemma_nothing_to_replace(first, lower, "console"@);
    }
    assert("CodexSandboxOffline"@ != "CodexSandboxOnline"@) by {
        assert("CodexSandboxOffline"@.len() != "CodexSandboxOnline"@.len());
    }
    assert("codex-windows-sandbox-setup.exe"@[0] == 'c');
    assert("codex-command-runner.exe"@[0] == 'c');
    assert("codex-windows-sandbox-setup.exe"@.len() != "codex-command-runner.exe"@.len());
    assert("CodexSandboxOffline"@[0] == 'C' && "CodexSandboxOnline"@[0] == 'C');
}

} // verus!
