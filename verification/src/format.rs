//! Formatting of the three upstream response shapes into one flat text
//! block. Formatting is a pure function of the parsed response (plus, for
//! the point-of-interest path, a description lookup keyed by id).
use vstd::prelude::*;

use crate::results::{DescriptionMap, LocationRef, NewsResult, PoiDetail, PostalAddress, Rating,
    WebResult, spec_description_for};
use crate::text::{decimal_string, join_all, join_nonempty, spec_decimal, spec_join,
    spec_join_nonempty};

verus! {

/// The text of one web result: title, description and URL, one line each.
pub open spec fn spec_web_block(w: WebResult) -> Seq<char> {
    "Title: "@ + w.title@ + "\nDescription: "@ + w.description@ + "\nURL: "@ + w.url@
}

/// The text of a whole web response: result blocks separated by blank lines;
/// zero results give the empty string.
pub open spec fn spec_format_web(results: Seq<WebResult>) -> Seq<char> {
    spec_join(results.map_values(|w: WebResult| spec_web_block(w)), "\n\n"@)
}

fn web_block(w: &WebResult) -> (r: String)
    ensures
        r@ == spec_web_block(*w),
{
    let mut r = "Title: ".to_owned();
    r.append(w.title.as_str());
    r.append("\nDescription: ");
    r.append(w.description.as_str());
    r.append("\nURL: ");
    r.append(w.url.as_str());
    proof {
        assert(r@ =~= spec_web_block(*w));
    }
    r
}

/// Formats a web response: one block per result, blocks separated by blank
/// lines; zero results format as the empty string.
pub fn format_web_results(results: &Vec<WebResult>) -> (r: String)
    ensures
        r@ == spec_format_web(results@),
{
    let ghost target: Seq<Seq<char>> = results@.map_values(|w: WebResult| spec_web_block(w));
    let mut blocks: Vec<String> = Vec::new();
    proof {
        assert(blocks.deep_view() =~= target.take(0));
    }
    let mut i: usize = 0;
    while i < results.len()
        invariant
            target == results@.map_values(|w: WebResult| spec_web_block(w)),
            target.len() == results@.len(),
            i <= results@.len(),
            blocks.deep_view() == target.take(i as int),
        decreases results@.len() - i,
    {
        let block = web_block(&results[i]);
        let ghost before = blocks.deep_view();
        blocks.push(block);
        proof {
            assert(blocks.deep_view() =~= before.push(block@));
            assert(target.take(i + 1 as int) =~= target.take(i as int).push(target[i as int]));
        }
        i += 1;
    }
    proof {
        assert(target.take(results@.len() as int) =~= target);
    }
    join_all(&blocks, "\n\n")
}

/// The text of one news result: an optional breaking-news mark, then title,
/// description, URL and age (or `Unknown`), and the thumbnail address when
/// there is one.
pub open spec fn spec_news_block(n: NewsResult) -> Seq<char> {
    (if n.breaking == Some(true) {
        "[BREAKING] "@
    } else {
        Seq::<char>::empty()
    }) + "Title: "@ + n.title@ + "\nDescription: "@ + n.description@ + "\nURL: "@ + n.url@
        + "\nAge: "@ + (match n.age {
        Some(a) => a@,
        None => "Unknown"@,
    }) + (match n.thumbnail_src {
        Some(src) => "\nThumbnail: "@ + src@,
        None => Seq::<char>::empty(),
    })
}

/// The text of a whole news response: result blocks separated by blank
/// lines; zero results give the fixed no-results message.
pub open spec fn spec_format_news(results: Seq<NewsResult>) -> Seq<char> {
    if results.len() == 0 {
        "No news results found"@
    } else {
        spec_join(results.map_values(|n: NewsResult| spec_news_block(n)), "\n\n"@)
    }
}

fn news_block(n: &NewsResult) -> (r: String)
    ensures
        r@ == spec_news_block(*n),
{
    let mut r = String::new();
    let breaking = match n.breaking {
        Some(b) => b,
        None => false,
    };
    if breaking {
        r.append("[BREAKING] ");
    }
    r.append("Title: ");
    r.append(n.title.as_str());
    r.append("\nDescription: ");
    r.append(n.description.as_str());
    r.append("\nURL: ");
    r.append(n.url.as_str());
    r.append("\nAge: ");
    match &n.age {
        Some(a) => r.append(a.as_str()),
        None => r.append("Unknown"),
    }
    match &n.thumbnail_src {
        Some(src) => {
            r.append("\nThumbnail: ");
            r.append(src.as_str());
        },
        None => {},
    }
    proof {
        assert(r@ =~= spec_news_block(*n));
    }
    r
}

/// Formats a news response: one block per article, blocks separated by blank
/// lines; zero results format as `"No news results found"`.
pub fn format_news_results(results: &Vec<NewsResult>) -> (r: String)
    ensures
        r@ == spec_format_news(results@),
{
    if results.len() == 0 {
        return "No news results found".to_owned();
    }
    let ghost target: Seq<Seq<char>> = results@.map_values(|n: NewsResult| spec_news_block(n));
    let mut blocks: Vec<String> = Vec::new();
    proof {
        assert(blocks.deep_view() =~= target.take(0));
    }
    let mut i: usize = 0;
    while i < results.len()
        invariant
            target == results@.map_values(|n: NewsResult| spec_news_block(n)),
            target.len() == results@.len(),
            i <= results@.len(),
            blocks.deep_view() == target.take(i as int),
        decreases results@.len() - i,
    {
        let block = news_block(&results[i]);
        let ghost before = blocks.deep_view();
        blocks.push(block);
        proof {
            assert(blocks.deep_view() =~= before.push(block@));
            assert(target.take(i + 1 as int) =~= target.take(i as int).push(target[i as int]));
        }
        i += 1;
    }
    proof {
        assert(target.take(results@.len() as int) =~= target);
    }
    join_all(&blocks, "\n\n")
}

/// The text an optional field contributes: its value, or nothing.
pub open spec fn spec_opt_text(o: Option<String>) -> Seq<char> {
    match o {
        Some(s) => s@,
        None => Seq::<char>::empty(),
    }
}

fn opt_text(o: &Option<String>) -> (r: String)
    ensures
        r@ == spec_opt_text(*o),
{
    match o {
        Some(s) => s.clone(),
        None => String::new(),
    }
}

/// An address's parts in display order: street, locality, region, postal
/// code, country; absent parts contribute nothing.
pub open spec fn spec_address_parts(a: PostalAddress) -> Seq<Seq<char>> {
    seq![
        spec_opt_text(a.street_address),
        spec_opt_text(a.address_locality),
        spec_opt_text(a.address_region),
        spec_opt_text(a.postal_code),
        spec_opt_text(a.country),
    ]
}

/// An address on one line: the non-empty parts, comma-separated.
pub open spec fn spec_address_text(a: PostalAddress) -> Seq<char> {
    spec_join_nonempty(spec_address_parts(a), ", "@)
}

fn address_text(a: &PostalAddress) -> (r: String)
    ensures
        r@ == spec_address_text(*a),
{
    let mut parts: Vec<String> = Vec::new();
    parts.push(opt_text(&a.street_address));
    parts.push(opt_text(&a.address_locality));
    parts.push(opt_text(&a.address_region));
    parts.push(opt_text(&a.postal_code));
    parts.push(opt_text(&a.country));
    proof {
        assert(parts.deep_view() =~= spec_address_parts(*a));
    }
    join_nonempty(&parts, ", ")
}

/// The name line of a location block, when the reference carries a title.
pub open spec fn spec_location_name_line(l: LocationRef) -> Seq<char> {
    match l.title {
        Some(t) => "Name: "@ + t@,
        None => Seq::<char>::empty(),
    }
}

/// The address line of a location block, when the reference carries an
/// address with at least one non-empty part.
pub open spec fn spec_location_address_line(l: LocationRef) -> Seq<char> {
    match l.postal_address {
        Some(a) => if spec_address_text(a).len() == 0 {
            Seq::<char>::empty()
        } else {
            "Address: "@ + spec_address_text(a)
        },
        None => Seq::<char>::empty(),
    }
}

/// The coordinates line of a location block, when the reference carries at
/// least a latitude and a longitude.
pub open spec fn spec_location_coords_line(l: LocationRef) -> Seq<char> {
    match l.coordinates {
        Some(c) => if c@.len() >= 2 {
            "Coordinates: "@ + c@[0]@ + ", "@ + c@[1]@
        } else {
            Seq::<char>::empty()
        },
        None => Seq::<char>::empty(),
    }
}

/// The identifier line of a location block; always present.
pub open spec fn spec_location_id_line(l: LocationRef) -> Seq<char> {
    "ID: "@ + l.id@
}

/// The text of one location reference: whichever of the name, address and
/// coordinates lines have data, then the identifier line, one per line.
pub open spec fn spec_location_block(l: LocationRef) -> Seq<char> {
    spec_join_nonempty(
        seq![
            spec_location_name_line(l),
            spec_location_address_line(l),
            spec_location_coords_line(l),
            spec_location_id_line(l),
        ],
        "\n"@,
    )
}

/// The text of a whole locations response: one block per reference,
/// separated by a divider line.
pub open spec fn spec_format_locations(refs: Seq<LocationRef>) -> Seq<char> {
    spec_join(refs.map_values(|l: LocationRef| spec_location_block(l)), "\n---\n"@)
}

fn location_block(l: &LocationRef) -> (r: String)
    ensures
        r@ == spec_location_block(*l),
{
    let mut lines: Vec<String> = Vec::new();

    let name_line = match &l.title {
        Some(t) => {
            let mut line = "Name: ".to_owned();
            line.append(t.as_str());
            line
        },
        None => String::new(),
    };
    lines.push(name_line);

    let address_line = match &l.postal_address {
        Some(a) => {
            let text = address_text(a);
            if text.as_str().is_empty() {
                String::new()
            } else {
                let mut line = "Address: ".to_owned();
                line.append(text.as_str());
                line
            }
        },
        None => String::new(),
    };
    lines.push(address_line);

    let coords_line = match &l.coordinates {
        Some(c) => {
            if c.len() >= 2 {
                let mut line = "Coordinates: ".to_owned();
                line.append(c[0].as_str());
                line.append(", ");
                line.append(c[1].as_str());
                line
            } else {
                String::new()
            }
        },
        None => String::new(),
    };
    lines.push(coords_line);

    let mut id_line = "ID: ".to_owned();
    id_line.append(l.id.as_str());
    lines.push(id_line);

    proof {
        assert(lines.deep_view() =~= seq![
            spec_location_name_line(*l),
            spec_location_address_line(*l),
            spec_location_coords_line(*l),
            spec_location_id_line(*l),
        ]);
    }
    join_nonempty(&lines, "\n")
}

/// Formats the location references of a locations response: one block per
/// reference, blocks separated by a divider line.
pub fn format_location_refs(refs: &Vec<LocationRef>) -> (r: String)
    ensures
        r@ == spec_format_locations(refs@),
{
    let ghost target: Seq<Seq<char>> = refs@.map_values(|l: LocationRef| spec_location_block(l));
    let mut blocks: Vec<String> = Vec::new();
    proof {
        assert(blocks.deep_view() =~= target.take(0));
    }
    let mut i: usize = 0;
    while i < refs.len()
        invariant
            target == refs@.map_values(|l: LocationRef| spec_location_block(l)),
            target.len() == refs@.len(),
            i <= refs@.len(),
            blocks.deep_view() == target.take(i as int),
        decreases refs@.len() - i,
    {
        let block = location_block(&refs[i]);
        let ghost before = blocks.deep_view();
        blocks.push(block);
        proof {
            assert(blocks.deep_view() =~= before.push(block@));
            assert(target.take(i + 1 as int) =~= target.take(i as int).push(target[i as int]));
        }
        i += 1;
    }
    proof {
        assert(target.take(refs@.len() as int) =~= target);
    }
    join_all(&blocks, "\n---\n")
}

/// The text an optional field contributes where a missing value reads `N/A`.
pub open spec fn spec_or_na(o: Option<String>) -> Seq<char> {
    match o {
        Some(s) => s@,
        None => "N/A"@,
    }
}

fn or_na(o: &Option<String>) -> (r: String)
    ensures
        r@ == spec_or_na(*o),
{
    match o {
        Some(s) => s.clone(),
        None => "N/A".to_owned(),
    }
}

/// A rating's displayed value: as sent, or `N/A` when missing.
pub open spec fn spec_rating_value(r: Option<Rating>) -> Seq<char> {
    match r {
        Some(r) => spec_or_na(r.value),
        None => "N/A"@,
    }
}

/// A rating's displayed review count: in decimal, or `0` when missing.
pub open spec fn spec_rating_count(r: Option<Rating>) -> Seq<char> {
    match r {
        Some(r) => match r.count {
            Some(c) => spec_decimal(c as nat),
            None => "0"@,
        },
        None => "0"@,
    }
}

/// Displayed opening hours: comma-separated, or `N/A` when missing or empty.
pub open spec fn spec_hours_text(o: Option<Vec<String>>) -> Seq<char> {
    let joined = match o {
        Some(h) => spec_join(h.deep_view(), ", "@),
        None => Seq::<char>::empty(),
    };
    if joined.len() == 0 {
        "N/A"@
    } else {
        joined
    }
}

/// An address display: the one-line address, or `N/A` when it is empty.
pub open spec fn spec_address_display(a: PostalAddress) -> Seq<char> {
    if spec_address_text(a).len() == 0 {
        "N/A"@
    } else {
        spec_address_text(a)
    }
}

/// The displayed description of the point of interest `id`, or a fixed
/// substitute when none is recorded.
pub open spec fn spec_description_display(
    descriptions: Seq<(Seq<char>, Seq<char>)>,
    id: Seq<char>,
) -> Seq<char> {
    match spec_description_for(descriptions, id) {
        Some(d) => d,
        None => "No description available"@,
    }
}

/// The text of one point of interest, merged by id with its description:
/// name, address, phone, rating with review count, price range, hours and
/// description, one per line, with the documented substitutes for missing
/// fields.
pub open spec fn spec_poi_block(
    p: PoiDetail,
    descriptions: Seq<(Seq<char>, Seq<char>)>,
) -> Seq<char> {
    "Name: "@ + p.name@ + "\nAddress: "@ + spec_address_display(p.address) + "\nPhone: "@
        + spec_or_na(p.phone) + "\nRating: "@ + spec_rating_value(p.rating) + " ("@
        + spec_rating_count(p.rating) + " reviews)\nPrice Range: "@ + spec_or_na(p.price_range)
        + "\nHours: "@ + spec_hours_text(p.opening_hours) + "\nDescription: "@
        + spec_description_display(descriptions, p.id@)
}

/// The text of a whole point-of-interest lookup: one block per record,
/// separated by a divider line; zero records give the fixed no-results
/// message.
pub open spec fn spec_format_pois(
    pois: Seq<PoiDetail>,
    descriptions: Seq<(Seq<char>, Seq<char>)>,
) -> Seq<char> {
    if pois.len() == 0 {
        "No local results found"@
    } else {
        spec_join(pois.map_values(|p: PoiDetail| spec_poi_block(p, descriptions)), "\n---\n"@)
    }
}

fn poi_block(p: &PoiDetail, descriptions: &DescriptionMap) -> (r: String)
    ensures
        r@ == spec_poi_block(*p, descriptions.entries.deep_view()),
{
    let mut r = "Name: ".to_owned();
    r.append(p.name.as_str());
    r.append("\nAddress: ");
    let addr = address_text(&p.address);
    if addr.as_str().is_empty() {
        r.append("N/A");
    } else {
        r.append(addr.as_str());
    }
    r.append("\nPhone: ");
    let phone = or_na(&p.phone);
    r.append(phone.as_str());
    r.append("\nRating: ");
    match &p.rating {
        Some(rating) => {
            let value = or_na(&rating.value);
            r.append(value.as_str());
            r.append(" (");
            match rating.count {
                Some(c) => {
                    let count = decimal_string(c as u64);
                    r.append(count.as_str());
                },
                None => r.append("0"),
            }
        },
        None => {
            r.append("N/A");
            r.append(" (");
            r.append("0");
        },
    }
    r.append(" reviews)\nPrice Range: ");
    let price = or_na(&p.price_range);
    r.append(price.as_str());
    r.append("\nHours: ");
    let hours = match &p.opening_hours {
        Some(h) => join_all(h, ", "),
        None => String::new(),
    };
    if hours.as_str().is_empty() {
        r.append("N/A");
    } else {
        r.append(hours.as_str());
    }
    r.append("\nDescription: ");
    match descriptions.description_for(p.id.as_str()) {
        Some(d) => r.append(d.as_str()),
        None => r.append("No description available"),
    }
    proof {
        assert(r@ =~= spec_poi_block(*p, descriptions.entries.deep_view()));
    }
    r
}

/// Formats a point-of-interest lookup merged with its descriptions: one
/// block per record, separated by a divider line; zero records format as
/// `"No local results found"`.
pub fn format_poi_results(pois: &Vec<PoiDetail>, descriptions: &DescriptionMap) -> (r: String)
    ensures
        r@ == spec_format_pois(pois@, descriptions.entries.deep_view()),
{
    if pois.len() == 0 {
        return "No local results found".to_owned();
    }
    let ghost descs: Seq<(Seq<char>, Seq<char>)> = descriptions.entries.deep_view();
    let ghost target: Seq<Seq<char>> = pois@.map_values(|p: PoiDetail| spec_poi_block(p, descs));
    let mut blocks: Vec<String> = Vec::new();
    proof {
        assert(blocks.deep_view() =~= target.take(0));
    }
    let mut i: usize = 0;
    while i < pois.len()
        invariant
            descs == descriptions.entries.deep_view(),
            target == pois@.map_values(|p: PoiDetail| spec_poi_block(p, descs)),
            target.len() == pois@.len(),
            i <= pois@.len(),
            blocks.deep_view() == target.take(i as int),
        decreases pois@.len() - i,
    {
        let block = poi_block(&pois[i], descriptions);
        let ghost before = blocks.deep_view();
        blocks.push(block);
        proof {
            assert(blocks.deep_view() =~= before.push(block@));
            assert(target.take(i + 1 as int) =~= target.take(i as int).push(target[i as int]));
        }
        i += 1;
    }
    proof {
        assert(target.take(pois@.len() as int) =~= target);
    }
    join_all(&blocks, "\n---\n")
}

} // verus!
