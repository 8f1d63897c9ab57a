use vstd::prelude::*;

use crate::application::create_short_url::CreateShortUrlService;
use crate::application::get_short_url_stats::GetShortUrlStatsService;
use crate::application::resolve_short_url::ResolveShortUrlService;
use crate::interfaces::http::handlers::{short_url_for, short_url_of};

verus! {

/// What the request handlers share: the public base URL of short links and the services.
pub struct AppState<R, C, G> {
    pub public_base_url: String,
    pub create_short_url: CreateShortUrlService<R, C, G>,
    pub resolve_short_url: ResolveShortUrlService<R, C>,
    pub get_short_url_stats: GetShortUrlStatsService<R, C>,
}

impl<R: Clone, C: Clone, G: Clone> Clone for AppState<R, C, G> {
    fn clone(&self) -> (s: Self)
        ensures
            s.public_base_url == self.public_base_url,
            cloned(self.create_short_url.spec_repository(), s.create_short_url.spec_repository()),
            cloned(self.create_short_url.spec_cache(), s.create_short_url.spec_cache()),
            cloned(self.create_short_url.spec_code_generator(), s.create_short_url.spec_code_generator()),
            cloned(self.resolve_short_url.spec_repository(), s.resolve_short_url.spec_repository()),
            cloned(self.resolve_short_url.spec_cache(), s.resolve_short_url.spec_cache()),
            cloned(self.get_short_url_stats.spec_repository(), s.get_short_url_stats.spec_repository()),
            cloned(self.get_short_url_stats.spec_cache(), s.get_short_url_stats.spec_cache()),
    {
        AppState {
            public_base_url: self.public_base_url.clone(),
            create_short_url: self.create_short_url.clone(),
            resolve_short_url: self.resolve_short_url.clone(),
            get_short_url_stats: self.get_short_url_stats.clone(),
        }
    }
}

impl<R, C, G> AppState<R, C, G> {
    /// The short link of `code`.
    pub fn short_url(&self, code: &str) -> (url: String)
        ensures
            url@ == short_url_of(self.public_base_url@, code@),
    {
        short_url_for(self.public_base_url.as_str(), code)
    }
}

} // verus!
