# anilist

A seasonal anime timetable: it reads the season pages of youranimes.tw
through their Next.js hydration data, moves the Japanese broadcast times to
the reader's time zone, and lays the shows out in a weekly timetable that
starts on today's weekday.

`src/` is the library, verified with Verus:

- `weekday`, `minute`, `season`, `schedule`, `anime_time`, `anime` — the
  domain model and the timetable order;
- `zone` — calendar dates and IANA zones as chrono and chrono-tz compute
  them, and the move of a broadcast slot between zones;
- `json`, `json_decode`, `html`, `text` — JSON values as serde_json parses
  them, typed reading of JSON, HTML tokens, and text helpers;
- `nextjs` — the `__NEXT_DATA__` and React Flight reader;
- `youranimes` — the source's JSON formats, its page and search parsers,
  the conversion to the domain model, and what the fetcher decides;
- `source`, `ffi` — the source-level errors and parser, and the flat
  records and functions offered to other languages;
- `render`, `app_state` — the text of a show's card and the state of the
  desktop timetable.

`app/` holds what the library leaves to its callers: the HTTP fetcher, the
UniFFI bindings and the Iced desktop application.
