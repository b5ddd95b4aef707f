use vstd::prelude::*;

verus! {

/// Settings the pipeline needs: the speech-synthesis endpoint and the two
/// API keys. The surrounding application is responsible for loading these
/// from wherever it keeps its configuration; the library only carries them.
pub struct GlobalConfig {
    pub tts_url: String,
    pub ali_dashscope_api_key: String,
    pub openai_key: String,
}

impl GlobalConfig {
    pub fn new(tts_url: String, ali_dashscope_api_key: String, openai_key: String) -> (c: Self)
        ensures
            c.tts_url@ == tts_url@,
            c.ali_dashscope_api_key@ == ali_dashscope_api_key@,
            c.openai_key@ == openai_key@,
    {
        Self { tts_url, ali_dashscope_api_key, openai_key }
    }

    pub fn get_tts_url(&self) -> (r: String)
        ensures
            r@ == self.tts_url@,
    {
        self.tts_url.clone()
    }

    pub fn get_ali_dashscope_api_key(&self) -> (r: String)
        ensures
            r@ == self.ali_dashscope_api_key@,
    {
        self.ali_dashscope_api_key.clone()
    }

    pub fn get_deepseek_api_key(&self) -> (r: String)
        ensures
            r@ == self.openai_key@,
    {
        self.openai_key.clone()
    }
}

} // verus!
