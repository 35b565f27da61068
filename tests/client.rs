use wikipedia::error::Error;
use wikipedia::items::{Category, Image, IterItem, LangLink, Link, Reference};
use wikipedia::iter::{Iter, Pull};
use wikipedia::lookup::{Answer, Lookup, Step};
use wikipedia::page::{Page, PageField};
use wikipedia::response::{read_languages, read_sections, read_titles};
use wikipedia::wiki::{Wikipedia, DEFAULT_USER_AGENT};

/// A transport that records what it is asked and answers from a script.
struct MockClient {
    url: Vec<String>,
    arguments: Vec<Vec<(String, String)>>,
    response: Vec<String>,
}

impl MockClient {
    fn new(responses: &[&str]) -> MockClient {
        MockClient {
            url: Vec::new(),
            arguments: Vec::new(),
            response: responses.iter().map(|r| r.to_string()).collect(),
        }
    }

    fn get(&mut self, base_url: &str, args: Vec<(String, String)>) -> Result<String, Error> {
        self.url.push(base_url.to_owned());
        self.arguments.push(args);
        Ok(self.response.remove(0))
    }
}

fn pairs(p: &[(&str, &str)]) -> Vec<(String, String)> {
    p.iter().map(|(k, v)| (k.to_string(), v.to_string())).collect()
}

fn api() -> String {
    "https://en.wikipedia.org/w/api.php".to_owned()
}

fn look_up(client: &mut MockClient, page: &Page, field: PageField) -> Result<Answer, Error> {
    let mut lookup = Lookup::new(page, field);
    if let Some(known) = lookup.known() {
        return Ok(Answer::Text(known));
    }
    loop {
        let params = lookup.request();
        let response = client.get(&page.wikipedia.base_url(), params);
        match lookup.receive(response) {
            Step::Done(r) => return r,
            Step::Again => {}
        }
    }
}

fn text_of(a: Result<Answer, Error>) -> String {
    match a.unwrap() {
        Answer::Text(s) => s,
        other => panic!("not a text: {:?}", other),
    }
}

fn collect<B: IterItem>(client: &mut MockClient, page: &Page) -> Vec<B> {
    let mut it = Iter::<B>::new(page);
    let mut out = Vec::new();
    loop {
        match it.next() {
            Pull::Item(x) => out.push(x),
            Pull::Fetch(params) => {
                let response = client.get(&page.wikipedia.base_url(), params);
                it.receive(response);
            }
            Pull::End => return out,
        }
    }
}

#[test]
fn base_url() {
    let mut wikipedia = Wikipedia::default();
    assert_eq!(wikipedia.base_url(), "https://en.wikipedia.org/w/api.php");
    wikipedia.language = "es".to_owned();
    assert_eq!(wikipedia.base_url(), "https://es.wikipedia.org/w/api.php");

    wikipedia.set_base_url("https://hello.{language}.world/");
    assert_eq!(wikipedia.base_url(), "https://hello.es.world/");

    wikipedia.set_base_url("https://hello.world/");
    assert_eq!(wikipedia.base_url(), "https://hello.world/");
}

#[test]
fn user_agent() {
    let mut wikipedia = Wikipedia::default();
    let mut client = MockClient::new(&["{}", "{}"]);
    let text = client.get(&wikipedia.base_url(), wikipedia.search_query("hello world")).unwrap();
    read_titles(&text, "search").unwrap_err();
    assert_eq!(wikipedia.user_agent, DEFAULT_USER_AGENT);
    assert_eq!(&*wikipedia.user_agent, "wikipedia (https://github.com/seppo0010/wikipedia-rs)");
    wikipedia.user_agent = "hello world".to_owned();
    let text = client.get(&wikipedia.base_url(), wikipedia.search_query("hello world")).unwrap();
    read_titles(&text, "search").unwrap_err();
    assert_eq!(&*wikipedia.user_agent, "hello world");
}

#[test]
fn lib_search() {
    let wikipedia = Wikipedia::default();
    let mut client = MockClient::new(&["{\"query\":{\"search\":[{\"title\":\"hello\"}, {\"title\":\"world\"}]}}"]);
    let params = wikipedia.search_query("hello world");
    let text = client.get(&wikipedia.base_url(), params).unwrap();
    assert_eq!(
        read_titles(&text, "search").unwrap(),
        vec!["hello".to_owned(), "world".to_owned()]
    );
    assert_eq!(client.url, vec![api()]);
    assert_eq!(
        client.arguments,
        vec![pairs(&[
            ("list", "search"),
            ("srprop", ""),
            ("srlimit", "10"),
            ("srsearch", "hello world"),
            ("format", "json"),
            ("action", "query"),
        ])]
    );
}

#[test]
fn lib_geosearch() {
    let wikipedia = Wikipedia::default();
    let mut client = MockClient::new(&["{\"query\":{\"geosearch\":[{\"title\":\"hello\"}, {\"title\":\"world\"}]}}"]);
    let latitude: f64 = -34.603333;
    let longitude: f64 = -58.381667;
    let params = wikipedia
        .geosearch_query(&latitude.to_string(), &longitude.to_string(), 10)
        .unwrap();
    let text = client.get(&wikipedia.base_url(), params).unwrap();
    assert_eq!(
        read_titles(&text, "geosearch").unwrap(),
        vec!["hello".to_owned(), "world".to_owned()]
    );
    assert_eq!(client.url, vec![api()]);
    assert_eq!(
        client.arguments,
        vec![pairs(&[
            ("list", "geosearch"),
            ("gsradius", "10"),
            ("gscoord", "-34.603333|-58.381667"),
            ("gslimit", "10"),
            ("format", "json"),
            ("action", "query"),
        ])]
    );
}

#[test]
fn lib_random_count() {
    let wikipedia = Wikipedia::default();
    let mut client = MockClient::new(&["{\"query\":{\"random\":[{\"title\":\"hello\"}, {\"title\":\"world\"}]}}"]);
    let params = wikipedia.random_count_query(10);
    let text = client.get(&wikipedia.base_url(), params).unwrap();
    assert_eq!(
        read_titles(&text, "random").unwrap(),
        vec!["hello".to_owned(), "world".to_owned()]
    );
    assert_eq!(client.url, vec![api()]);
    assert_eq!(
        client.arguments,
        vec![pairs(&[
            ("list", "random"),
            ("rnnamespace", "0"),
            ("rnlimit", "10"),
            ("format", "json"),
            ("action", "query"),
        ])]
    );
}

#[test]
fn lib_random() {
    let wikipedia = Wikipedia::default();
    let mut client = MockClient::new(&["{\"query\":{\"random\":[{\"title\":\"hello\"}, {\"title\":\"world\"}]}}"]);
    let params = wikipedia.random_count_query(1);
    let text = client.get(&wikipedia.base_url(), params).unwrap();
    assert_eq!(
        read_titles(&text, "random").unwrap().into_iter().next(),
        Some("hello".to_owned())
    );
    assert_eq!(client.url, vec![api()]);
    assert_eq!(
        client.arguments,
        vec![pairs(&[
            ("list", "random"),
            ("rnnamespace", "0"),
            ("rnlimit", "1"),
            ("format", "json"),
            ("action", "query"),
        ])]
    );
}

#[test]
fn lib_page_content() {
    let wikipedia = Wikipedia::default();
    let mut client = MockClient::new(&["{\"query\":{\"pages\":{\"a\":{\"extract\":\"hello\"}}}}"]);
    let page = wikipedia.page_from_pageid("4138548".to_owned());
    let html = text_of(look_up(&mut client, &page, PageField::Content));
    assert_eq!(html, "hello".to_owned());
    assert_eq!(client.url, vec![api()]);
    assert_eq!(
        client.arguments,
        vec![pairs(&[
            ("prop", "extracts|revisions"),
            ("explaintext", ""),
            ("rvprop", "ids"),
            ("redirects", ""),
            ("format", "json"),
            ("action", "query"),
            ("pageids", "4138548"),
        ])]
    );
}

#[test]
fn lib_page_html_content() {
    let wikipedia = Wikipedia::default();
    let mut client = MockClient::new(&["{\"query\":{\"pages\":{\"a\":{\"revisions\":[{\"*\":\"hello\"}]}}}}"]);
    let page = wikipedia.page_from_pageid("4138548".to_owned());
    let html = text_of(look_up(&mut client, &page, PageField::HtmlContent));
    assert_eq!(html, "hello".to_owned());
    assert_eq!(client.url, vec![api()]);
    assert_eq!(
        client.arguments,
        vec![pairs(&[
            ("prop", "revisions"),
            ("rvprop", "content"),
            ("rvlimit", "1"),
            ("rvparse", ""),
            ("redirects", ""),
            ("format", "json"),
            ("action", "query"),
            ("pageids", "4138548"),
        ])]
    );
}

#[test]
fn lib_page_summary() {
    let wikipedia = Wikipedia::default();
    let mut client = MockClient::new(&["{\"query\":{\"pages\":{\"a\":{\"extract\":\"hello\"}}}}"]);
    let page = wikipedia.page_from_title("Parkinson's law of triviality".to_owned());
    let summary = text_of(look_up(&mut client, &page, PageField::Summary));
    assert_eq!(summary, "hello".to_owned());
    assert_eq!(client.url, vec![api()]);
    assert_eq!(
        client.arguments,
        vec![pairs(&[
            ("prop", "extracts"),
            ("explaintext", ""),
            ("exintro", ""),
            ("redirects", ""),
            ("format", "json"),
            ("action", "query"),
            ("titles", "Parkinson\'s law of triviality"),
        ])]
    );
}

#[test]
fn lib_page_redirect_summary() {
    let wikipedia = Wikipedia::default();
    let mut client = MockClient::new(&[
        "{\"query\":{\"redirects\":[{\"to\":\"hello world\"}]}}",
        "{\"query\":{\"pages\":{\"a\":{\"extract\":\"hello\"}}}}",
    ]);
    let page = wikipedia.page_from_title("Parkinson's law of triviality".to_owned());
    let summary = text_of(look_up(&mut client, &page, PageField::Summary));
    assert_eq!(summary, "hello".to_owned());
    assert_eq!(client.url, vec![api(), api()]);
    assert_eq!(
        client.arguments,
        vec![
            pairs(&[
                ("prop", "extracts"),
                ("explaintext", ""),
                ("exintro", ""),
                ("redirects", ""),
                ("format", "json"),
                ("action", "query"),
                ("titles", "Parkinson\'s law of triviality"),
            ]),
            pairs(&[
                ("prop", "extracts"),
                ("explaintext", ""),
                ("exintro", ""),
                ("redirects", ""),
                ("format", "json"),
                ("action", "query"),
                ("titles", "hello world"),
            ]),
        ]
    );
}

#[test]
fn lib_page_images() {
    let wikipedia = Wikipedia::default();
    let mut client = MockClient::new(&[
        "{\"continue\": {\"lol\":\"1\"},\"query\":{\"pages\":{\"a\":{\"title\":\"Image 1\", \"imageinfo\":[{\"url\": \"http://example.com/image1.jpg\", \"descriptionurl\": \"http://example.com/image1.jpg.html\"}]}}}}",
        "{\"query\":{\"pages\":{\"a\":{\"title\":\"Image 2\", \"imageinfo\":[{\"url\": \"http://example.com/image2.jpg\", \"descriptionurl\": \"http://example.com/image2.jpg.html\"}]}}}}",
    ]);
    let page = wikipedia.page_from_title("Parkinson's law of triviality".to_owned());
    let images = collect::<Image>(&mut client, &page);
    assert_eq!(
        images,
        vec![
            Image {
                url: "http://example.com/image1.jpg".to_owned(),
                title: "Image 1".to_owned(),
                description_url: "http://example.com/image1.jpg.html".to_owned(),
            },
            Image {
                url: "http://example.com/image2.jpg".to_owned(),
                title: "Image 2".to_owned(),
                description_url: "http://example.com/image2.jpg.html".to_owned(),
            }
        ]
    );
    assert_eq!(client.url, vec![api(), api()]);
    assert_eq!(
        client.arguments,
        vec![
            pairs(&[
                ("generator", "images"),
                ("gimlimit", "max"),
                ("prop", "imageinfo"),
                ("iiprop", "url"),
                ("format", "json"),
                ("action", "query"),
                ("titles", "Parkinson\'s law of triviality"),
                ("continue", ""),
            ]),
            pairs(&[
                ("generator", "images"),
                ("gimlimit", "max"),
                ("prop", "imageinfo"),
                ("iiprop", "url"),
                ("format", "json"),
                ("action", "query"),
                ("titles", "Parkinson\'s law of triviality"),
                ("lol", "1"),
            ]),
        ]
    );
}

fn coordinates_params() -> Vec<Vec<(String, String)>> {
    vec![pairs(&[
        ("prop", "coordinates"),
        ("colimit", "max"),
        ("redirects", ""),
        ("format", "json"),
        ("action", "query"),
        ("titles", "World"),
    ])]
}

#[test]
fn page_coordinates() {
    let wikipedia = Wikipedia::default();
    let mut client = MockClient::new(&["{\"query\":{\"pages\":{\"a\":{\"coordinates\":[{\"lat\": 2.1, \"lon\":-1.3}]}}}}"]);
    let page = wikipedia.page_from_title("World".to_owned());
    let coordinates = match look_up(&mut client, &page, PageField::Coordinates).unwrap() {
        Answer::Coordinates(Some((lat, lon))) => (lat.parse::<f64>().unwrap(), lon.parse::<f64>().unwrap()),
        other => panic!("no coordinates: {:?}", other),
    };
    assert_eq!(coordinates, (2.1, -1.3));
    assert_eq!(client.url, vec![api()]);
    assert_eq!(client.arguments, coordinates_params());
}

#[test]
fn page_no_coordinates() {
    let wikipedia = Wikipedia::default();
    let mut client = MockClient::new(&["{\"query\":{\"pages\":{\"a\":{}}}}"]);
    let page = wikipedia.page_from_title("World".to_owned());
    let coordinates = look_up(&mut client, &page, PageField::Coordinates).unwrap();
    assert_eq!(coordinates, Answer::Coordinates(None));
    assert_eq!(client.url, vec![api()]);
    assert_eq!(client.arguments, coordinates_params());
}

#[test]
fn get_references() {
    let wikipedia = Wikipedia::default();
    let mut client = MockClient::new(&[
        "{\"continue\": {\"lol\":\"1\"},\"query\":{\"pages\":{\"a\":{\"extlinks\":[{\"*\": \"//example.com/reference1.html\"}]}}}}",
        "{\"query\":{\"pages\":{\"a\":{\"extlinks\":[{\"*\": \"//example.com/reference2.html\"}]}}}}",
    ]);
    let page = wikipedia.page_from_title("World".to_owned());
    assert_eq!(
        collect::<Reference>(&mut client, &page),
        vec![
            Reference { url: "http://example.com/reference1.html".to_owned() },
            Reference { url: "http://example.com/reference2.html".to_owned() },
        ]
    );
    assert_eq!(client.url, vec![api(), api()]);
    assert_eq!(
        client.arguments,
        vec![
            pairs(&[
                ("prop", "extlinks"),
                ("ellimit", "max"),
                ("format", "json"),
                ("action", "query"),
                ("titles", "World"),
                ("continue", ""),
            ]),
            pairs(&[
                ("prop", "extlinks"),
                ("ellimit", "max"),
                ("format", "json"),
                ("action", "query"),
                ("titles", "World"),
                ("lol", "1"),
            ]),
        ]
    );
}

#[test]
fn get_links() {
    let wikipedia = Wikipedia::default();
    let mut client = MockClient::new(&[
        "{\"continue\": {\"lol\":\"1\"},\"query\":{\"pages\":{\"a\":{\"links\":[{\"title\": \"Hello\"}]}}}}",
        "{\"query\":{\"pages\":{\"a\":{\"links\":[{\"title\": \"World\"}]}}}}",
    ]);
    let page = wikipedia.page_from_title("World".to_owned());
    assert_eq!(
        collect::<Link>(&mut client, &page),
        vec![Link { title: "Hello".to_owned() }, Link { title: "World".to_owned() }]
    );
    assert_eq!(client.url, vec![api(), api()]);
    assert_eq!(
        client.arguments,
        vec![
            pairs(&[
                ("prop", "links"),
                ("plnamespace", "0"),
                ("ellimit", "max"),
                ("format", "json"),
                ("action", "query"),
                ("titles", "World"),
                ("continue", ""),
            ]),
            pairs(&[
                ("prop", "links"),
                ("plnamespace", "0"),
                ("ellimit", "max"),
                ("format", "json"),
                ("action", "query"),
                ("titles", "World"),
                ("lol", "1"),
            ]),
        ]
    );
}

#[test]
fn get_categories() {
    let wikipedia = Wikipedia::default();
    let mut client = MockClient::new(&[
        "{\"continue\": {\"lol\":\"1\"},\"query\":{\"pages\":{\"a\":{\"categories\":[{\"title\": \"Hello\"}]}}}}",
        "{\"query\":{\"pages\":{\"a\":{\"categories\":[{\"title\": \"Category: World\"}]}}}}",
    ]);
    let page = wikipedia.page_from_title("World".to_owned());
    assert_eq!(
        collect::<Category>(&mut client, &page),
        vec![Category { title: "Hello".to_owned() }, Category { title: "World".to_owned() }]
    );
    assert_eq!(client.url, vec![api(), api()]);
    assert_eq!(
        client.arguments,
        vec![
            pairs(&[
                ("prop", "categories"),
                ("cllimit", "max"),
                ("format", "json"),
                ("action", "query"),
                ("titles", "World"),
                ("continue", ""),
            ]),
            pairs(&[
                ("prop", "categories"),
                ("cllimit", "max"),
                ("format", "json"),
                ("action", "query"),
                ("titles", "World"),
                ("lol", "1"),
            ]),
        ]
    );
}

#[test]
fn lib_sections() {
    let wikipedia = Wikipedia::default();
    let mut client = MockClient::new(&["{\"parse\":{\"sections\":[{\"line\":\"hello\"}, {\"line\":\"world\"}]}}"]);
    let page = wikipedia.page_from_pageid("123".to_owned());
    let pageid = text_of(look_up(&mut client, &page, PageField::PageId));
    let text = client.get(&wikipedia.base_url(), Page::sections_query(&pageid)).unwrap();
    assert_eq!(read_sections(&text).unwrap(), vec!["hello".to_owned(), "world".to_owned()]);
    assert_eq!(client.url, vec![api()]);
    assert_eq!(
        client.arguments,
        vec![pairs(&[
            ("prop", "sections"),
            ("format", "json"),
            ("action", "parse"),
            ("pageid", "123"),
        ])]
    );
}

#[test]
fn lib_languages() {
    let wikipedia = Wikipedia::default();
    let mut client = MockClient::new(&["{\"query\":{\"languages\":[{\"*\":\"hello\", \"code\":\"world\"}, {\"*\":\"foo\", \"code\":\"bar\"}]}}"]);
    let text = client.get(&wikipedia.base_url(), wikipedia.languages_query()).unwrap();
    assert_eq!(
        read_languages(&text).unwrap(),
        vec![
            ("world".to_owned(), "hello".to_owned()),
            ("bar".to_owned(), "foo".to_owned()),
        ]
    );
    assert_eq!(client.url, vec![api()]);
    assert_eq!(
        client.arguments,
        vec![pairs(&[
            ("meta", "siteinfo"),
            ("siprop", "languages"),
            ("format", "json"),
            ("action", "query"),
        ])]
    );
}

#[test]
fn lang_links_listing() {
    let wikipedia = Wikipedia::default();
    let mut client = MockClient::new(&[
        "{\"query\":{\"pages\":{\"a\":{\"langlinks\":[{\"lang\":\"nl\",\"*\":\"Trivialiteitswet van Parkinson\"},{\"lang\":\"xx\"},{\"*\":\"no language\"}]}}}}",
    ]);
    let page = wikipedia.page_from_title("Law of triviality".to_owned());
    assert_eq!(
        collect::<LangLink>(&mut client, &page),
        vec![
            LangLink { lang: "nl".to_owned(), title: Some("Trivialiteitswet van Parkinson".to_owned()) },
            LangLink { lang: "xx".to_owned(), title: None },
            LangLink { lang: "".to_owned(), title: Some("no language".to_owned()) },
        ]
    );
    assert_eq!(
        client.arguments,
        vec![pairs(&[
            ("prop", "langlinks"),
            ("lllimit", "max"),
            ("format", "json"),
            ("action", "query"),
            ("titles", "Law of triviality"),
            ("continue", ""),
        ])]
    );
}
