# lunchbot

A Cloudflare Worker that posts the canteen's lunch menu to Slack every
weekday: it fetches the menu page, has Gemini write the day's menu as Slack
text and draw it in a randomly chosen style, stores the picture in R2, posts
it to a channel and names the style in the post's thread.

The decisions are a Verus library in `src/`, proved against their contracts:

- `scrape` finds the application state in the page and the menu in it;
- `gemini` builds the model requests, classifies the responses and makes
  the picture (`image_step`);
- `retry` is the back-off policy for the model calls;
- `slack` builds the posts and reads Slack's answers;
- `run` is the run as a state machine (`run_step`);
- `config`, `r2`, `http`, `json` and `text` hold the settings, storage
  names, requests, JSON documents and text helpers they share.

`app/` is the worker itself: it reads the environment, sends the requests,
parses the responses with serde, and feeds each result back to the library.
