//! The configuration of a run: how many pages to fetch, and from where.

use vstd::prelude::*;
use vstd::string::*;
use crate::decimal::{decimal_u16, parse_u16};

verus! {

/// The version of the program.
pub const VERSION: &'static str = "2022.5.17";

/// The largest number of pages that one run may fetch.
pub const MAX_PAGES: u16 = 250;

/// The address that a configuration starts with.
pub const DEFAULT_URL_PREFIX: &'static str = "https://videa.hu/videok/film-animacio/";

/// The configuration of a run.
#[derive(Debug)]
pub struct Config {
    url_prefix: String,
    page_count: u16,
    page_offset: u16,
}

/// What a configuration holds, as plain values.
pub struct ConfigText {
    pub url_prefix: Seq<char>,
    pub page_count: u16,
    pub page_offset: u16,
}

/// Why the arguments of a run give no configuration.
#[derive(Clone, Copy, Debug, PartialEq, Eq, Structural)]
pub enum ConfigError {
    /// The page count is no number, or not from 1 to [`MAX_PAGES`].
    PageCount,
    /// The page offset is no number that fits in 16 bits.
    PageOffset,
}

impl View for Config {
    type V = ConfigText;

    closed spec fn view(&self) -> ConfigText {
        ConfigText {
            url_prefix: self.url_prefix@,
            page_count: self.page_count,
            page_offset: self.page_offset,
        }
    }
}

/// The configuration that the two arguments of a run give. The page count
/// has to be a number, then the page offset, and then the page count has to
/// lie from 1 to [`MAX_PAGES`]; the first of these that fails is the error.
pub open spec fn config_of(page_count: Seq<char>, page_offset: Seq<char>) -> Result<
    ConfigText,
    ConfigError,
> {
    match decimal_u16(page_count) {
        None => Err(ConfigError::PageCount),
        Some(count) => match decimal_u16(page_offset) {
            None => Err(ConfigError::PageOffset),
            Some(offset) => if 1 <= count <= MAX_PAGES {
                Ok(
                    ConfigText {
                        url_prefix: DEFAULT_URL_PREFIX@,
                        page_count: count,
                        page_offset: offset,
                    },
                )
            } else {
                Err(ConfigError::PageCount)
            },
        },
    }
}

/// The numbers of the pages that a run fetches: as many as the page count
/// says, counted from 1, each moved on by the page offset.
pub open spec fn page_numbers_of(config: ConfigText) -> Seq<u32> {
    Seq::new(config.page_count as nat, |i: int| (i + 1 + config.page_offset) as u32)
}

impl ConfigError {
    /// The text that tells the user of this error.
    pub open spec fn message_text(self) -> Seq<char> {
        match self {
            ConfigError::PageCount => "Page count must be in range: 1 - 250."@,
            ConfigError::PageOffset => "Page offset must be in range: 0 - 9999."@,
        }
    }

    /// The message that tells the user of this error.
    pub fn message(&self) -> (message: String)
        ensures
            message@ == self.message_text(),
    {
        match self {
            ConfigError::PageCount => "Page count must be in range: 1 - 250.".to_owned(),
            ConfigError::PageOffset => "Page offset must be in range: 0 - 9999.".to_owned(),
        }
    }
}

impl Config {
    /// The configuration of a run of one page, without offset.
    pub fn new() -> (config: Config)
        ensures
            config@ == (ConfigText {
                url_prefix: DEFAULT_URL_PREFIX@,
                page_count: 1,
                page_offset: 0,
            }),
    {
        Config { url_prefix: DEFAULT_URL_PREFIX.to_owned(), page_count: 1, page_offset: 0 }
    }

    /// The address that the pages are found under.
    pub fn get_url_prefix(&self) -> (prefix: &str)
        ensures
            prefix@ == self@.url_prefix,
    {
        self.url_prefix.as_str()
    }

    /// The number of pages to fetch.
    pub fn get_page_count(&self) -> (count: u16)
        ensures
            count == self@.page_count,
    {
        self.page_count
    }

    /// The number of pages to pass over before the first one that is fetched.
    pub fn get_page_offset(&self) -> (offset: u16)
        ensures
            offset == self@.page_offset,
    {
        self.page_offset
    }

    /// This configuration with another page count.
    pub fn set_page_count(self, page_count: u16) -> (config: Config)
        ensures
            config@ == (ConfigText {
                url_prefix: self@.url_prefix,
                page_count,
                page_offset: self@.page_offset,
            }),
    {
        let mut config = self;
        config.page_count = page_count;
        config
    }

    /// This configuration with another page offset.
    pub fn set_page_offset(self, page_offset: u16) -> (config: Config)
        ensures
            config@ == (ConfigText {
                url_prefix: self@.url_prefix,
                page_count: self@.page_count,
                page_offset,
            }),
    {
        let mut config = self;
        config.page_offset = page_offset;
        config
    }

    /// The numbers of the pages to fetch, in the order of fetching.
    pub fn page_numbers(&self) -> (numbers: Vec<u32>)
        ensures
            numbers@ == page_numbers_of(self@),
    {
        let mut numbers: Vec<u32> = Vec::new();
        let mut index: u16 = 0;
        while index < self.page_count
            invariant
                index <= self.page_count,
                numbers@.len() == index,
                forall|i: int| 0 <= i < index ==> numbers@[i] == i + 1 + self.page_offset,
            decreases self.page_count - index,
        {
            index += 1;
            numbers.push(index as u32 + self.page_offset as u32);
        }
        numbers
    }
}

/// Reads the configuration of a run from its two arguments, the page count
/// and the page offset, as they were typed.
pub fn get_config(page_count: &str, page_offset: &str) -> (config: Result<Config, ConfigError>)
    ensures
        match config {
            Ok(made) => config_of(page_count@, page_offset@) == Ok::<ConfigText, ConfigError>(made@),
            Err(error) => config_of(page_count@, page_offset@) == Err::<ConfigText, ConfigError>(
                error,
            ),
        },
{
    let count = match parse_u16(page_count) {
        Some(count) => count,
        None => {
            return Err(ConfigError::PageCount);
        },
    };
    let offset = match parse_u16(page_offset) {
        Some(offset) => offset,
        None => {
            return Err(ConfigError::PageOffset);
        },
    };
    if !(1 <= count && count <= MAX_PAGES) {
        return Err(ConfigError::PageCount);
    }
    Ok(Config::new().set_page_count(count).set_page_offset(offset))
}

} // verus!
