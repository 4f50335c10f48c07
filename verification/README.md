# chargemap_proxy

A caching proxy for EV charging station data (Open Charge Map, OpenStreetMap
and a regional CSV dataset), served from a local SQLite database over HTTP.

The crate is split in two:

- `src/` is a library verified with Verus. It holds the decisions the
  service makes on its data:
  - `utils`: connector code normalisation and the splitting of a CSV row's
    connector and current-type fields into pairs;
  - `flanders`: reading the CSV file's bytes into records (with the `csv`
    crate) and records into rows, grouping rows into stations by (address,
    postcode, operator), and the writes each group calls for, including the
    field-by-field merge into a station already cached within 25 m;
  - `osm`: what an OpenStreetMap node's tags say about its station, and the
    writes a node calls for, with the same merge;
  - `ocm`: the Open Charge Map request URL, the incremental-sync moment, the
    database records a returned station gives, and its merge (with Open
    Charge Map's values taking priority) into a station of another source
    cached within 25 m;
  - `stations`: address formatting, the connector filters of a station query,
    the assembly of connectors under their stations (every station is listed
    when no connector filter is given), the connectors of a joined station
    row set, the field merge, and the JSON list of station ids used in the
    connector query;
  - `auth`, `health`, `error`: the API-key check, the health answer and what a
    failed request is answered;
  - `text`: string primitives over `Seq<char>` (trimming, splitting, substring
    search, decimal numbers and their parsing) used by the above.
- `app/` is the service around it: configuration, the HTTP server and its
  routes, the database and network access, the periodic syncs, and all
  floating-point work (coordinates, distances, bounding boxes, power).

Floating-point values that the library only carries (coordinates, power,
amps, voltage) are held there as the bit patterns of the `f64` values.
