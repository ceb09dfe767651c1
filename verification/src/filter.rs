//! The rule that tells plausible lines of code from noise.

use crate::language::Language;
use crate::text::{
    chars_of, contains_char, contains_substring, has_substring, lemma_subrange_contains,
    lemma_subrange_has_substring, lemma_trimmed_bounds, lemma_trimmed_idempotent, texts,
    trim_bounds, trimmed,
};
use vstd::prelude::*;

verus! {

impl Language {
    /// Whether the raw line `line` survives filtering: it holds no `/`, more
    /// than ten characters are left of it once trimmed, and, for Java, it does
    /// not hold the text `import`.
    pub open spec fn keeps(self, line: Seq<char>) -> bool {
        &&& !line.contains('/')
        &&& trimmed(line).len() > 10
        &&& (self == Language::Java ==> !has_substring(line, "import"@))
    }

    /// What filtering leaves of `lines`: the lines that survive, in their
    /// order, each trimmed.
    pub open spec fn filtered(self, lines: Seq<Seq<char>>) -> Seq<Seq<char>> {
        lines.filter(|line: Seq<char>| self.keeps(line)).map_values(
            |line: Seq<char>| trimmed(line),
        )
    }

    /// What holds of every line that filtering hands out: it is trimmed, longer
    /// than ten characters, free of `/` and, for Java, free of `import`.
    pub open spec fn plausible(self, line: Seq<char>) -> bool {
        &&& trimmed(line) == line
        &&& line.len() > 10
        &&& !line.contains('/')
        &&& (self == Language::Java ==> !has_substring(line, "import"@))
    }

    /// A line that survives filtering is plausible once trimmed.
    pub proof fn lemma_kept_line_is_plausible(self, line: Seq<char>)
        requires
            self.keeps(line),
        ensures
            self.plausible(trimmed(line)),
    {
        let (start, end) = lemma_trimmed_bounds(line);
        lemma_trimmed_idempotent(line);
        if trimmed(line).contains('/') {
            lemma_subrange_contains(line, start, end, '/');
        }
        if has_substring(trimmed(line), "import"@) {
            lemma_subrange_has_substring(line, start, end, "import"@);
        }
    }

    /// Every line that filtering hands out is plausible, whatever went in.
    pub proof fn lemma_filtered_lines_are_plausible(self, lines: Seq<Seq<char>>)
        ensures
            forall|i: int|
                0 <= i < self.filtered(lines).len() ==> self.plausible(
                    #[trigger] self.filtered(lines)[i],
                ),
    {
        let keeps = |line: Seq<char>| self.keeps(line);
        let kept = lines.filter(keeps);
        assert forall|i: int| 0 <= i < self.filtered(lines).len() implies self.plausible(
            #[trigger] self.filtered(lines)[i],
        ) by {
            lines.lemma_filter_pred(keeps, i);
            assert(self.keeps(kept[i]));
            self.lemma_kept_line_is_plausible(kept[i]);
        }
    }

    /// Filtering one more line: it is added, trimmed, if it survives.
    pub proof fn lemma_filtered_push(self, lines: Seq<Seq<char>>, line: Seq<char>)
        ensures
            self.filtered(lines.push(line)) == if self.keeps(line) {
                self.filtered(lines).push(trimmed(line))
            } else {
                self.filtered(lines)
            },
    {
        let keeps = |line: Seq<char>| self.keeps(line);
        lines.lemma_filter_push(line, keeps);
        if self.keeps(line) {
            lines.filter(keeps).lemma_push_map_commute(|line: Seq<char>| trimmed(line), line);
        }
    }

    /// Applies the filtering rule to one raw line: the trimmed line if it
    /// survives, nothing if it does not.
    pub fn filter_line(&self, line: &str) -> (kept: Option<String>)
        ensures
            match kept {
                Some(text) => self.keeps(line@) && text@ == trimmed(line@),
                None => !self.keeps(line@),
            },
    {
        let chars = chars_of(line);
        if contains_char(&chars, '/') {
            return None;
        }
        let (start, end) = trim_bounds(&chars);
        if end - start <= 10 {
            return None;
        }
        match self {
            Language::Rust => {},
            Language::Java => {
                let import = chars_of("import");
                if contains_substring(&chars, &import) {
                    return None;
                }
            },
        }
        Some(String::from_str(line.substring_char(start, end)))
    }

    /// Keeps the lines of `lines` that look like code, in their order, each
    /// trimmed.
    pub fn filter_lines(&self, lines: Vec<String>) -> (kept: Vec<String>)
        ensures
            texts(kept@) == self.filtered(texts(lines@)),
            forall|i: int| 0 <= i < kept@.len() ==> self.plausible(#[trigger] kept@[i]@),
    {
        let mut kept: Vec<String> = Vec::new();
        let mut i: usize = 0;
        assert(texts(lines@).take(0) =~= Seq::empty());
        assert(self.filtered(Seq::empty()) =~= Seq::empty()) by {
            reveal(Seq::filter);
        }
        while i < lines.len()
            invariant
                i <= lines@.len(),
                texts(kept@) == self.filtered(texts(lines@).take(i as int)),
            decreases lines@.len() - i,
        {
            let line = &lines[i];
            proof {
                let seen = texts(lines@).take(i as int);
                assert(texts(lines@).take(i + 1) =~= seen.push(line@));
                self.lemma_filtered_push(seen, line@);
            }
            match self.filter_line(line.as_str()) {
                Some(text) => {
                    assert(texts(kept@.push(text)) =~= texts(kept@).push(text@));
                    kept.push(text);
                },
                None => {},
            }
            i += 1;
        }
        proof {
            assert(texts(lines@).take(i as int) =~= texts(lines@));
            self.lemma_filtered_lines_are_plausible(texts(lines@));
            assert forall|i: int| 0 <= i < kept@.len() implies self.plausible(
                #[trigger] kept@[i]@,
            ) by {
                assert(texts(kept@)[i] == kept@[i]@);
            }
        }
        kept
    }
}

} // verus!
