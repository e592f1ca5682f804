use mona_spy::data_provider::wiki::answer::unescape;
use mona_spy::data_provider::wiki::answer::wiki_text_of;
use mona_spy::data_provider::wiki::WikiError;
use mona_spy::text::chars_of;
use mona_spy::text::contains;
use mona_spy::text::matches_at;
use mona_spy::text::replace;
use mona_spy::text::same;
use mona_spy::text::string_of;

fn chars(text: &str) -> Vec<char> {
    text.chars().collect()
}

#[test]
fn chars_and_strings_round_trip() {
    assert_eq!(chars_of("héllo"), vec!['h', 'é', 'l', 'l', 'o']);
    assert_eq!(chars_of(""), Vec::<char>::new());
    assert_eq!(string_of(&vec!['a', 'ß', 'c']), "aßc");
    assert_eq!(string_of(&Vec::new()), "");
    assert_eq!(string_of(&chars_of("== Available ==")), "== Available ==");
}

#[test]
fn same_compares_texts() {
    assert!(same("Code", "Code"));
    assert!(!same("Code", "code"));
    assert!(!same("Code", "Codes"));
    assert!(same("", ""));
    assert!(!same("", "x"));
}

#[test]
fn matches_at_looks_at_one_position() {
    let haystack = chars("abcabc");
    assert!(matches_at(&haystack, &chars("abc"), 0));
    assert!(matches_at(&haystack, &chars("abc"), 3));
    assert!(!matches_at(&haystack, &chars("abc"), 1));
    assert!(!matches_at(&haystack, &chars("abc"), 4));
    assert!(!matches_at(&haystack, &chars("abc"), 100));
    assert!(matches_at(&haystack, &chars(""), 6));
    assert!(!matches_at(&haystack, &chars(""), 7));
    assert!(!matches_at(&chars("ab"), &chars("abc"), 0));
}

#[test]
fn contains_finds_a_text_anywhere() {
    assert!(contains("intro == Available == list", "== Available =="));
    assert!(contains("== Available ==", "== Available =="));
    assert!(!contains("== Available=", "== Available =="));
    assert!(contains("abc", ""));
    assert!(contains("", ""));
    assert!(!contains("", "a"));
    assert!(contains("aab", "ab"));
    assert!(!contains("short", "much longer"));
}

#[test]
fn replace_goes_from_left_to_right() {
    assert_eq!(replace(&chars("aaa"), &chars("aa"), &chars("b")), chars("ba"));
    assert_eq!(replace(&chars("abcabc"), &chars("bc"), &chars("")), chars("aa"));
    assert_eq!(replace(&chars("abc"), &chars("x"), &chars("y")), chars("abc"));
    assert_eq!(replace(&chars("abc"), &chars(""), &chars("y")), chars("abc"));
    assert_eq!(replace(&chars(""), &chars("a"), &chars("y")), chars(""));
    assert_eq!(replace(&chars("ab"), &chars("ab"), &chars("abab")), chars("abab"));
    assert_eq!(replace(&chars("xab"), &chars("abc"), &chars("-")), chars("xab"));
}

#[test]
fn unescape_writes_out_the_escapes() {
    assert_eq!(unescape("a\\nb"), "a\nb");
    assert_eq!(unescape("say \\\"hi\\\""), "say \"hi\"");
    assert_eq!(unescape("it\\'s"), "it's");
    assert_eq!(unescape("a\\tb"), "a\tb");
    assert_eq!(unescape("plain"), "plain");
    assert_eq!(unescape(""), "");
    assert_eq!(unescape("\\"), "\\");
    assert_eq!(unescape("\\x"), "\\x");
    assert_eq!(unescape("\\\\n"), "\\\n");
    assert_eq!(unescape("{|\\n! Code\\n|}"), "{|\n! Code\n|}");
}

fn response(content: &str) -> String {
    format!(
        "{{\"batchcomplete\":true,\"query\":{{\"pages\":[{{\"pageid\":1,\"title\":\"T\",\"revisions\":[{{\"slots\":{{\"main\":{{\"contentmodel\":\"wikitext\",\"content\":{}}}}}}}]}}]}}}}",
        content
    )
}

#[test]
fn wiki_text_is_read_from_the_answer() {
    assert_eq!(wiki_text_of(&response("\"== Available ==\"")), Ok("== Available ==".to_string()));
    assert_eq!(wiki_text_of(&response("\"line\\nnext\"")), Ok("line\nnext".to_string()));
    assert_eq!(wiki_text_of(&response("\"a\\\\nb \\\\t c\"")), Ok("a\nb \t c".to_string()));
    assert_eq!(wiki_text_of(&response("\"\"")), Ok(String::new()));
}

#[test]
fn an_answer_of_another_shape_is_an_error() {
    assert_eq!(wiki_text_of(&response("12")), Err(WikiError));
    assert_eq!(wiki_text_of(&response("null")), Err(WikiError));
    assert_eq!(wiki_text_of(&response("[\"text\"]")), Err(WikiError));
    assert_eq!(wiki_text_of("{\"query\":{\"pages\":[]}}"), Err(WikiError));
    assert_eq!(wiki_text_of("{\"query\":{}}"), Err(WikiError));
    assert_eq!(wiki_text_of("{}"), Err(WikiError));
    assert_eq!(wiki_text_of("\"text\""), Err(WikiError));
    assert_eq!(wiki_text_of("[]"), Err(WikiError));
    assert_eq!(
        wiki_text_of(
            "{\"query\":{\"pages\":{\"0\":{\"revisions\":[{\"slots\":{\"main\":{\"content\":\"x\"}}}]}}}}"
        ),
        Err(WikiError)
    );
    assert_eq!(
        wiki_text_of(
            "{\"query\":{\"pages\":[{\"revisions\":[{\"slots\":{\"main\":{\"content\":\"first\"}}}]},{\"revisions\":[{\"slots\":{\"main\":{\"content\":\"second\"}}}]}]}}"
        ),
        Ok("first".to_string())
    );
}

#[test]
fn an_answer_that_is_not_json_is_an_error() {
    assert_eq!(wiki_text_of(""), Err(WikiError));
    assert_eq!(wiki_text_of("<html>"), Err(WikiError));
    assert_eq!(wiki_text_of("{\"query\":"), Err(WikiError));
}

#[test]
fn wiki_error_has_its_text_and_status() {
    assert_eq!(WikiError.message(), "Ocurred an Error during Wiki fetching");
    assert_eq!(WikiError.status_code(), 500);
}

#[test]
fn unescape_agrees_with_the_replacements_one_after_the_other() {
    let samples = [
        "",
        "\\",
        "\\\\",
        "\\n",
        "\\\\n",
        "\\\\\\n",
        "n\\",
        "\\n\\t\\'\\\"",
        "\\\\t\\\\'",
        "a\\nb\\nc",
        "{| class=\\\"wikitable\\\"\\n! Code\\n|-\\n| it\\'s\\t!\\n|}",
        "\\x\\y\\z",
        "\\\n",
        "ü\\nü",
    ];
    for sample in samples {
        let expected = sample
            .replace("\\n", "\n")
            .replace("\\\"", "\"")
            .replace("\\'", "'")
            .replace("\\t", "\t");
        assert_eq!(unescape(sample), expected, "for {:?}", sample);
    }
}

#[test]
fn contains_and_replace_agree_with_the_standard_library() {
    let texts = ["", "a", "aa", "aaa", "abab", "ababab", "xabcabcx", "== Available ==", "ééé"];
    let words = ["a", "aa", "ab", "aba", "abc", "bc", "é", "== ", "x", "zz"];
    for text in texts {
        for word in words {
            assert_eq!(contains(text, word), text.contains(word), "{:?} in {:?}", word, text);
            for to in ["", "-", "a", "long text"] {
                let expected: Vec<char> = text.replace(word, to).chars().collect();
                assert_eq!(
                    replace(&chars(text), &chars(word), &chars(to)),
                    expected,
                    "{:?} for {:?} in {:?}",
                    to,
                    word,
                    text
                );
            }
        }
    }
}
