//! The tagged text blocks in which a publication, its references and its
//! citations are handed to the summarising model.

use crate::common::{
    lemma_nested_views, Author, AuthorView, Paper, PaperView, Section, SectionView,
};
use crate::index::{enumerates, item_keys, item_values, section_entries, sections_items};
use crate::text::{decimal, decimal_string, push_text, views};
use vstd::prelude::*;

verus! {

/// One `<author>` element for each author, holding the name.
pub open spec fn authors_xml(authors: Seq<AuthorView>) -> Seq<char>
    decreases authors.len(),
{
    if authors.len() == 0 {
        Seq::empty()
    } else {
        authors_xml(authors.drop_last()) + "<author>"@ + authors.last().name + "</author>"@
    }
}

/// One `<paragraph>` element for each paragraph.
pub open spec fn paragraphs_xml(paragraphs: Seq<Seq<char>>) -> Seq<char>
    decreases paragraphs.len(),
{
    if paragraphs.len() == 0 {
        Seq::empty()
    } else {
        paragraphs_xml(paragraphs.drop_last()) + "<paragraph>"@ + paragraphs.last()
            + "</paragraph>"@
    }
}

/// The `<section>` element of one section: its title, then its paragraphs.
pub open spec fn section_xml(section: SectionView) -> Seq<char> {
    "<section>"@ + "<title>"@ + section.title + "</title>"@ + paragraphs_xml(section.contents)
        + "</section>"@
}

/// The `<section>` elements of the given sections, in their order.
pub open spec fn sections_xml(sections: Seq<SectionView>) -> Seq<char>
    decreases sections.len(),
{
    if sections.len() == 0 {
        Seq::empty()
    } else {
        sections_xml(sections.drop_last()) + section_xml(sections.last())
    }
}

/// The block that describes a document: title and authors as metadata,
/// then the given sections. The closing tag of the block is written
/// without its last character.
pub open spec fn document_xml(
    title: Seq<char>,
    authors: Seq<AuthorView>,
    sections: Seq<SectionView>,
) -> Seq<char> {
    "<paper>"@ + "<metadata>"@ + "<title>"@ + title + "</title>"@ + "<authors>"@ + authors_xml(
        authors,
    ) + "</authors>"@ + "</metadata>"@ + "<contents>"@ + sections_xml(sections) + "</contents>"@
        + "</paper"@
}

/// The element of one cited or citing publication between the given tags:
/// title, authors, year of publication and abstract. The title is followed
/// by a second opening tag.
pub open spec fn entry_xml(paper: PaperView, open: Seq<char>, close: Seq<char>) -> Seq<char> {
    open + "<title>"@ + paper.title + "<title>"@ + "<authors>"@ + authors_xml(paper.authors)
        + "</authors>"@ + "<year>"@ + decimal(paper.publication_date.year as int) + "</year>"@
        + "<abstract>"@ + paper.abstract_text + "</abstract>"@ + close
}

/// The elements of the given publications, in their order.
pub open spec fn entries_xml(papers: Seq<PaperView>, open: Seq<char>, close: Seq<char>) -> Seq<
    char,
>
    decreases papers.len(),
{
    if papers.len() == 0 {
        Seq::empty()
    } else {
        entries_xml(papers.drop_last(), open, close) + entry_xml(papers.last(), open, close)
    }
}

/// The block that lists the publications that a publication cites.
pub open spec fn references_xml(papers: Seq<PaperView>) -> Seq<char> {
    "<references>"@ + entries_xml(papers, "<reference>"@, "</reference>"@) + "</references>"@
}

/// The block that lists the publications that cite a publication.
pub open spec fn citations_xml(papers: Seq<PaperView>) -> Seq<char> {
    "<citations>"@ + entries_xml(papers, "<citation>"@, "</citation>"@) + "</citations>"@
}

/// Whether the sections stand in ascending order of their index.
pub open spec fn in_reading_order(sections: Seq<SectionView>) -> bool {
    forall|i: int, j: int| 0 <= i < j < sections.len() ==> sections[i].index <= sections[j].index
}

/// Whether `sections` are the sections of the index `entries`, each once,
/// in ascending order of their index.
pub open spec fn is_reading_order(
    sections: Seq<SectionView>,
    entries: Map<Seq<char>, SectionView>,
) -> bool {
    in_reading_order(sections) && exists|titles: Seq<Seq<char>>|
        enumerates(titles, sections, entries)
}

/// Whether no two sections of the index have the same place in the
/// reading order.
pub open spec fn distinct_places(entries: Map<Seq<char>, SectionView>) -> bool {
    forall|first: Seq<char>, second: Seq<char>|
        entries.contains_key(first) && entries.contains_key(second) && first != second ==> (
        #[trigger] entries[first]).index != (#[trigger] entries[second]).index
}

spec fn strictly_rising(sections: Seq<SectionView>) -> bool {
    forall|i: int, j: int| 0 <= i < j < sections.len() ==> sections[i].index < sections[j].index
}

spec fn within(sections: Seq<SectionView>, others: Seq<SectionView>) -> bool {
    forall|i: int| 0 <= i < sections.len() ==> #[trigger] others.contains(sections[i])
}

proof fn lemma_rising_equal(first: Seq<SectionView>, second: Seq<SectionView>)
    requires
        strictly_rising(first),
        strictly_rising(second),
        within(first, second),
        within(second, first),
    ensures
        first == second,
    decreases first.len(),
{
    if first.len() == 0 {
        if second.len() > 0 {
            assert(first.contains(second[0]));
        }
        assert(first =~= second);
    } else {
        let top = first.len() - 1;
        assert(second.contains(first[top]));
        let j = choose|j: int| 0 <= j < second.len() && second[j] == first[top];
        let end = second.len() - 1;
        assert(first.contains(second[end]));
        let i = choose|i: int| 0 <= i < first.len() && first[i] == second[end];
        assert(j == end && i == top);
        let head = first.drop_last();
        let other = second.drop_last();
        assert forall|k: int| 0 <= k < head.len() implies #[trigger] other.contains(head[k]) by {
            assert(second.contains(first[k]));
            let p = choose|p: int| 0 <= p < second.len() && second[p] == first[k];
            assert(p != end);
            assert(other[p] == head[k]);
        }
        assert forall|k: int| 0 <= k < other.len() implies #[trigger] head.contains(other[k]) by {
            assert(first.contains(second[k]));
            let p = choose|p: int| 0 <= p < first.len() && first[p] == second[k];
            assert(p != top);
            assert(head[p] == other[k]);
        }
        lemma_rising_equal(head, other);
        assert(first =~= head.push(first[top]));
        assert(second =~= other.push(second[end]));
    }
}

proof fn lemma_listing_rises(
    titles: Seq<Seq<char>>,
    sections: Seq<SectionView>,
    entries: Map<Seq<char>, SectionView>,
)
    requires
        enumerates(titles, sections, entries),
        in_reading_order(sections),
        distinct_places(entries),
    ensures
        strictly_rising(sections),
{
    assert forall|i: int, j: int| 0 <= i < j < sections.len() implies sections[i].index
        < sections[j].index by {
        assert(entries.contains_pair(titles[i], sections[i]));
        assert(entries.contains_pair(titles[j], sections[j]));
        assert(titles[i] != titles[j]);
        assert(entries[titles[i]].index != entries[titles[j]].index);
    }
}

proof fn lemma_listing_within(
    titles: Seq<Seq<char>>,
    sections: Seq<SectionView>,
    others_titles: Seq<Seq<char>>,
    others: Seq<SectionView>,
    entries: Map<Seq<char>, SectionView>,
)
    requires
        enumerates(titles, sections, entries),
        enumerates(others_titles, others, entries),
    ensures
        within(sections, others),
{
    assert forall|i: int| 0 <= i < sections.len() implies #[trigger] others.contains(
        sections[i],
    ) by {
        assert(entries.contains_pair(titles[i], sections[i]));
        assert(entries.contains_key(titles[i]));
        let j = choose|j: int| 0 <= j < others_titles.len() && others_titles[j] == titles[i];
        assert(entries.contains_pair(others_titles[j], others[j]));
        assert(others[j] == sections[i]);
    }
}

/// Where no two sections of the index have the same place, the reading
/// order is fixed: there is only one way to list them.
pub proof fn law_reading_order_unique(
    first: Seq<SectionView>,
    second: Seq<SectionView>,
    entries: Map<Seq<char>, SectionView>,
)
    requires
        is_reading_order(first, entries),
        is_reading_order(second, entries),
        distinct_places(entries),
    ensures
        first == second,
{
    let first_titles = choose|titles: Seq<Seq<char>>| enumerates(titles, first, entries);
    let second_titles = choose|titles: Seq<Seq<char>>| enumerates(titles, second, entries);
    lemma_listing_rises(first_titles, first, entries);
    lemma_listing_rises(second_titles, second, entries);
    lemma_listing_within(first_titles, first, second_titles, second, entries);
    lemma_listing_within(second_titles, second, first_titles, first, entries);
    lemma_rising_equal(first, second);
}

fn push_authors(xml: &mut String, authors: &Vec<Author>)
    ensures
        final(xml)@ == old(xml)@ + authors_xml(views(authors@)),
{
    let ghost before = xml@;
    let mut i: usize = 0;
    assert(xml@ =~= before + authors_xml(views(authors@).take(0)));
    while i < authors.len()
        invariant
            i <= authors.len(),
            xml@ == before + authors_xml(views(authors@).take(i as int)),
        decreases authors.len() - i,
    {
        let ghost all = views(authors@);
        assert(all.take(i + 1).drop_last() =~= all.take(i as int));
        assert(all.take(i + 1).last() == authors@[i as int]@);
        push_text(xml, "<author>");
        push_text(xml, authors[i].name.as_str());
        push_text(xml, "</author>");
        assert(xml@ =~= before + authors_xml(all.take(i + 1)));
        i += 1;
    }
    assert(views(authors@).take(authors@.len() as int) =~= views(authors@));
}

fn push_paragraphs(xml: &mut String, paragraphs: &Vec<String>)
    ensures
        final(xml)@ == old(xml)@ + paragraphs_xml(views(paragraphs@)),
{
    let ghost before = xml@;
    let mut i: usize = 0;
    assert(xml@ =~= before + paragraphs_xml(views(paragraphs@).take(0)));
    while i < paragraphs.len()
        invariant
            i <= paragraphs.len(),
            xml@ == before + paragraphs_xml(views(paragraphs@).take(i as int)),
        decreases paragraphs.len() - i,
    {
        let ghost all = views(paragraphs@);
        assert(all.take(i + 1).drop_last() =~= all.take(i as int));
        assert(all.take(i + 1).last() == paragraphs@[i as int]@);
        push_text(xml, "<paragraph>");
        push_text(xml, paragraphs[i].as_str());
        push_text(xml, "</paragraph>");
        assert(xml@ =~= before + paragraphs_xml(all.take(i + 1)));
        i += 1;
    }
    assert(views(paragraphs@).take(paragraphs@.len() as int) =~= views(paragraphs@));
}

fn push_section(xml: &mut String, section: &Section)
    ensures
        final(xml)@ == old(xml)@ + section_xml(section@),
{
    push_text(xml, "<section>");
    push_text(xml, "<title>");
    push_text(xml, section.title.as_str());
    push_text(xml, "</title>");
    push_paragraphs(xml, &section.contents);
    push_text(xml, "</section>");
    assert(xml@ =~= old(xml)@ + section_xml(section@));
}

fn push_entry(xml: &mut String, paper: &Paper, open: &str, close: &str)
    ensures
        final(xml)@ == old(xml)@ + entry_xml(paper@, open@, close@),
{
    push_text(xml, open);
    push_text(xml, "<title>");
    push_text(xml, paper.title.as_str());
    push_text(xml, "<title>");
    push_text(xml, "<authors>");
    push_authors(xml, &paper.authors);
    push_text(xml, "</authors>");
    push_text(xml, "<year>");
    let year = decimal_string(paper.publication_date.year as i64);
    push_text(xml, year.as_str());
    push_text(xml, "</year>");
    push_text(xml, "<abstract>");
    push_text(xml, paper.abstract_text.as_str());
    push_text(xml, "</abstract>");
    push_text(xml, close);
    assert(xml@ =~= old(xml)@ + entry_xml(paper@, open@, close@));
}

fn push_entries(xml: &mut String, papers: &Vec<Paper>, open: &str, close: &str)
    ensures
        final(xml)@ == old(xml)@ + entries_xml(views(papers@), open@, close@),
{
    let ghost before = xml@;
    let mut i: usize = 0;
    assert(xml@ =~= before + entries_xml(views(papers@).take(0), open@, close@));
    while i < papers.len()
        invariant
            i <= papers.len(),
            xml@ == before + entries_xml(views(papers@).take(i as int), open@, close@),
        decreases papers.len() - i,
    {
        let ghost all = views(papers@);
        assert(all.take(i + 1).drop_last() =~= all.take(i as int));
        assert(all.take(i + 1).last() == papers@[i as int]@);
        push_entry(xml, &papers[i], open, close);
        assert(xml@ =~= before + entries_xml(all.take(i + 1), open@, close@));
        i += 1;
    }
    assert(views(papers@).take(papers@.len() as int) =~= views(papers@));
}

/// The sections at the given positions of a walk, in the order of the positions.
pub open spec fn picked(items: Seq<(String, Section)>, positions: Seq<usize>) -> Seq<SectionView> {
    Seq::new(positions.len(), |k: int| items[positions[k] as int].1@)
}

/// The titles at the given positions of a walk, in the order of the positions.
pub open spec fn picked_titles(items: Seq<(String, Section)>, positions: Seq<usize>) -> Seq<
    Seq<char>,
> {
    Seq::new(positions.len(), |k: int| items[positions[k] as int].0@)
}

/// Whether `positions` names each of the first `count` items once, in
/// ascending order of the sections' index.
pub open spec fn arranges(items: Seq<(String, Section)>, positions: Seq<usize>, count: int) -> bool {
    &&& positions.len() == count
    &&& forall|k: int| 0 <= k < positions.len() ==> 0 <= #[trigger] positions[k] < count
    &&& forall|k: int, l: int| 0 <= k < l < positions.len() ==> positions[k] != positions[l]
    &&& forall|p: usize| 0 <= p < count ==> #[trigger] positions.contains(p)
    &&& forall|k: int, l: int|
        0 <= k < l < positions.len() ==> items[positions[k] as int].1.index
            <= items[positions[l] as int].1.index
}

/// Arranges the items of a walk by the index of their sections. Sections
/// with the same index keep the order of the walk.
fn reading_positions(items: &Vec<(String, Section)>) -> (positions: Vec<usize>)
    ensures
        arranges(items@, positions@, items@.len() as int),
{
    let mut positions: Vec<usize> = Vec::new();
    let mut i: usize = 0;
    while i < items.len()
        invariant
            i <= items.len(),
            arranges(items@, positions@, i as int),
        decreases items.len() - i,
    {
        let rank = items[i].1.index;
        let mut at: usize = 0;
        while at < positions.len() && items[positions[at]].1.index <= rank
            invariant
                at <= positions.len(),
                i < items.len(),
                arranges(items@, positions@, i as int),
                rank == items@[i as int].1.index,
                forall|k: int| 0 <= k < at ==> items@[positions@[k] as int].1.index <= rank,
            decreases positions.len() - at,
        {
            at += 1;
        }
        let ghost before = positions@;
        positions.insert(at, i);
        proof {
            let after = positions@;
            assert forall|k: int| 0 <= k < after.len() implies 0 <= #[trigger] after[k] < i + 1 by {
                if k < at {
                    assert(after[k] == before[k]);
                } else if k > at {
                    assert(after[k] == before[k - 1]);
                }
            }
            assert forall|k: int, l: int| 0 <= k < l < after.len() implies after[k] != after[l] by {
                let bk = if k < at {
                    k
                } else {
                    k - 1
                };
                let bl = if l < at {
                    l
                } else {
                    l - 1
                };
                if k != at {
                    assert(after[k] == before[bk]);
                }
                if l != at {
                    assert(after[l] == before[bl]);
                }
            }
            assert forall|p: usize| 0 <= p < i + 1 implies #[trigger] after.contains(p) by {
                if p == i {
                    assert(after[at as int] == p);
                } else {
                    assert(before.contains(p));
                    let k = choose|k: int| 0 <= k < before.len() && before[k] == p;
                    if k < at {
                        assert(after[k] == p);
                    } else {
                        assert(after[k + 1] == p);
                    }
                }
            }
            assert forall|k: int, l: int| 0 <= k < l < after.len() implies items@[after[k] as int].1.index
                <= items@[after[l] as int].1.index by {
                let bk = if k < at {
                    k
                } else {
                    k - 1
                };
                let bl = if l < at {
                    l
                } else {
                    l - 1
                };
                if k != at {
                    assert(after[k] == before[bk]);
                }
                if l != at {
                    assert(after[l] == before[bl]);
                }
                if k == at {
                    // everything from `at` on ranks above the new item
                    assert(before[at as int] == after[at + 1]);
                    if bl > at {
                        assert(items@[before[at as int] as int].1.index
                            <= items@[before[bl] as int].1.index);
                    }
                }
            }
        }
        i += 1;
    }
    positions
}

impl Paper {
    /// Writes the document as a tagged text block: the title and the
    /// authors' names, then the indexed sections in ascending order of their
    /// index, each with its paragraphs.
    pub fn original_text2xml(&self) -> (xml: String)
        ensures
            exists|sections: Seq<SectionView>|
                is_reading_order(sections, self@.original_text_map) && xml@ == document_xml(
                    self@.title,
                    self@.authors,
                    sections,
                ),
    {
        let items = sections_items(&self.original_text_map);
        let positions = reading_positions(&items);
        let ghost sections = picked(items@, positions@);
        let ghost titles = picked_titles(items@, positions@);
        let mut xml = String::new();
        push_text(&mut xml, "<paper>");
        push_text(&mut xml, "<metadata>");
        push_text(&mut xml, "<title>");
        push_text(&mut xml, self.title.as_str());
        push_text(&mut xml, "</title>");
        push_text(&mut xml, "<authors>");
        push_authors(&mut xml, &self.authors);
        push_text(&mut xml, "</authors>");
        push_text(&mut xml, "</metadata>");
        push_text(&mut xml, "<contents>");
        let ghost head = xml@;
        let mut k: usize = 0;
        assert(xml@ =~= head + sections_xml(sections.take(0)));
        while k < positions.len()
            invariant
                k <= positions.len(),
                arranges(items@, positions@, items@.len() as int),
                sections == picked(items@, positions@),
                xml@ == head + sections_xml(sections.take(k as int)),
            decreases positions.len() - k,
        {
            assert(sections.take(k + 1).drop_last() =~= sections.take(k as int));
            assert(sections.take(k + 1).last() == items@[positions@[k as int] as int].1@);
            push_section(&mut xml, &items[positions[k]].1);
            assert(xml@ =~= head + sections_xml(sections.take(k + 1)));
            k += 1;
        }
        assert(sections.take(sections.len() as int) =~= sections);
        push_text(&mut xml, "</contents>");
        push_text(&mut xml, "</paper");
        proof {
            assert(xml@ =~= document_xml(self@.title, self@.authors, sections));
            let entries = self@.original_text_map;
            assert(entries == section_entries(self.original_text_map));
            assert(enumerates(item_keys(items@), item_values(items@), entries));
            assert forall|key: Seq<char>| #[trigger] entries.contains_key(key) implies exists|
                k: int,
            |
                0 <= k < titles.len() && titles[k] == key by {
                let p = choose|p: int| 0 <= p < items@.len() && item_keys(items@)[p] == key;
                assert(positions@.contains(p as usize));
                let k = choose|k: int| 0 <= k < positions@.len() && positions@[k] == p as usize;
                assert(titles[k] == key);
            }
            assert forall|k: int, l: int| 0 <= k < l < titles.len() implies titles[k]
                != titles[l] by {
                let p = positions@[k] as int;
                let q = positions@[l] as int;
                assert(item_keys(items@)[p] == titles[k]);
                assert(item_keys(items@)[q] == titles[l]);
            }
            assert forall|k: int| 0 <= k < titles.len() implies entries.contains_pair(
                #[trigger] titles[k],
                sections[k],
            ) by {
                let p = positions@[k] as int;
                assert(item_keys(items@)[p] == titles[k]);
                assert(item_values(items@)[p] == sections[k]);
            }
            assert(enumerates(titles, sections, entries));
            assert(in_reading_order(sections));
            assert(is_reading_order(sections, entries));
        }
        xml
    }

    /// Writes the publications that this one cites as a tagged text block.
    pub fn references2xml(&self) -> (xml: String)
        ensures
            xml@ == references_xml(self@.references),
    {
        let mut xml = String::new();
        push_text(&mut xml, "<references>");
        push_entries(&mut xml, &self.references, "<reference>", "</reference>");
        push_text(&mut xml, "</references>");
        proof {
            lemma_nested_views(*self);
        }
        assert(xml@ =~= references_xml(self@.references));
        xml
    }

    /// Writes the publications that cite this one as a tagged text block.
    pub fn citations2xml(&self) -> (xml: String)
        ensures
            xml@ == citations_xml(self@.citations),
    {
        let mut xml = String::new();
        push_text(&mut xml, "<citations>");
        push_entries(&mut xml, &self.citations, "<citation>", "</citation>");
        push_text(&mut xml, "</citations>");
        proof {
            lemma_nested_views(*self);
        }
        assert(xml@ =~= citations_xml(self@.citations));
        xml
    }
}

} // verus!
