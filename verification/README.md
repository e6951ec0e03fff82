# ptera_api

The rating service of ptera, as a Verus-verified library (`src/`) and the
AWS Lambda function around it (`app/`).

- `src/decimal.rs`: decimal text of ratings, read and written.
- `src/entity.rs`: ratings, the list of a match, and the attribute record
  the table keeps.
- `src/bll.rs`: how ratings move after a match (cap, saturation, the trip
  through `f64`).
- `src/infrastructure.rs`: the key, record and updates sent to the table,
  and the check that guards an update.
- `src/service_handler.rs`: the decisions of the handlers.
- `src/routing.rs`: which handler answers a request.
- `app/`: the Lambda runtime, DynamoDB calls, JSON, and the logarithmic
  formulas (floating point).
